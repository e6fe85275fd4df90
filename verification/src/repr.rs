//! The two backend representations of an interface value.
//!
//! A closed tagged union enumerates the known implementers, one variant
//! each, in declaration order; an open dynamic-dispatch alias binds a
//! shareable polymorphic handle to the context type. Exactly one is
//! chosen per `Definition`, never mixed.

use vstd::prelude::*;

use crate::ast::{
    AssocConstModel, AssocTypeModel, GenericParam, GenericsModel, SpecAssocConstModel,
    SpecAssocTypeModel, SpecGenericsModel, SpecTyExpr, TraitDecl, TyExpr,
};
use crate::definition::{ImplementerDefinition, ScalarTy, SpecScalarTy, spec_scalar_ident,
    spec_scalar_is_generic};
use crate::strutil::{spec_dec_digits, str_concat, u64_to_dec_string};

verus! {

/// One parameter of a dispatched method signature.
#[derive(Debug)]
pub struct SigParam {
    pub name: String,
    pub ty: TyExpr,
}

/// Ghost mirror of [`SigParam`].
#[verifier::ext_equal]
pub struct SpecSigParam {
    pub name: Seq<char>,
    pub ty: SpecTyExpr,
}

impl DeepView for SigParam {
    type V = SpecSigParam;

    open spec fn deep_view(&self) -> SpecSigParam {
        SpecSigParam { name: self.name.deep_view(), ty: self.ty.deep_view() }
    }
}

/// A capability-method signature, as the tagged union re-declares it.
#[derive(Debug)]
pub struct SigModel {
    pub ident: String,
    pub is_async: bool,
    pub params: Vec<SigParam>,
    pub ret: TyExpr,
}

/// Ghost mirror of [`SigModel`].
#[verifier::ext_equal]
pub struct SpecSigModel {
    pub ident: Seq<char>,
    pub is_async: bool,
    pub params: Seq<SpecSigParam>,
    pub ret: SpecTyExpr,
}

impl DeepView for SigModel {
    type V = SpecSigModel;

    open spec fn deep_view(&self) -> SpecSigModel {
        SpecSigModel {
            ident: self.ident.deep_view(),
            is_async: self.is_async,
            params: self.params.deep_view(),
            ret: self.ret.deep_view(),
        }
    }
}

/// The tagged-union representation: a synthesized type enumerating the
/// implementers, plus the mirror of the declaration needed to satisfy
/// conformance by dispatch.
#[derive(Debug)]
pub struct EnumType {
    /// The synthesized type name: the requested alias, or the trait
    /// identifier suffixed with `Value`.
    pub ident: String,
    /// Visibility, held as plain text.
    pub visibility: String,
    /// One entry per implementer type, in declaration order.
    pub variants: Vec<String>,
    pub trait_ident: String,
    pub trait_generics: GenericsModel,
    pub trait_types: Vec<AssocTypeModel>,
    pub trait_consts: Vec<AssocConstModel>,
    pub trait_methods: Vec<SigModel>,
}

/// Ghost mirror of [`EnumType`].
#[verifier::ext_equal]
pub struct SpecEnumType {
    pub ident: Seq<char>,
    pub visibility: Seq<char>,
    pub variants: Seq<Seq<char>>,
    pub trait_ident: Seq<char>,
    pub trait_generics: SpecGenericsModel,
    pub trait_types: Seq<SpecAssocTypeModel>,
    pub trait_consts: Seq<SpecAssocConstModel>,
    pub trait_methods: Seq<SpecSigModel>,
}

impl DeepView for EnumType {
    type V = SpecEnumType;

    open spec fn deep_view(&self) -> SpecEnumType {
        SpecEnumType {
            ident: self.ident.deep_view(),
            visibility: self.visibility.deep_view(),
            variants: self.variants.deep_view(),
            trait_ident: self.trait_ident.deep_view(),
            trait_generics: self.trait_generics.deep_view(),
            trait_types: self.trait_types.deep_view(),
            trait_consts: self.trait_consts.deep_view(),
            trait_methods: self.trait_methods.deep_view(),
        }
    }
}

/// The synthesized name of the tagged union: the requested alias, or the
/// trait identifier suffixed with `Value`.
pub open spec fn spec_enum_ident(
    trait_ident: Seq<char>,
    as_enum: Option<Seq<char>>,
) -> Seq<char> {
    match as_enum {
        Some(alias) => alias,
        None => trait_ident + "Value"@,
    }
}

/// The signature mirrors of a parameter list.
pub open spec fn spec_sig_params(ps: Seq<crate::ast::SpecParamModel>) -> Seq<SpecSigParam> {
    Seq::new(ps.len(), |i: int| SpecSigParam { name: ps[i].name, ty: ps[i].ty })
}

/// The signature mirror of one capability method.
pub open spec fn spec_sig_of_method(m: crate::ast::SpecMethodModel) -> SpecSigModel {
    SpecSigModel {
        ident: m.ident,
        is_async: m.is_async,
        params: spec_sig_params(m.params),
        ret: m.ret,
    }
}

/// The signature mirrors of a whole method list.
pub open spec fn spec_sigs_of_methods(ms: Seq<crate::ast::SpecMethodModel>) -> Seq<SpecSigModel> {
    Seq::new(ms.len(), |i: int| spec_sig_of_method(ms[i]))
}

/// The identifier of the variant standing for the implementer at one
/// position.
pub open spec fn spec_variant_ident(n: nat) -> Seq<char> {
    "Impl"@ + spec_dec_digits(n)
}

/// Renders the identifier of one tagged-union variant.
pub fn variant_ident(num: usize) -> (r: String)
    ensures
        r.deep_view() == spec_variant_ident(num as nat),
{
    let digits = u64_to_dec_string(num as u64);
    str_concat("Impl", digits.as_str())
}

impl EnumType {
    /// Builds the tagged-union representation from the declaration, the
    /// requested alias, and the implementer list. One variant per
    /// implementer; variant order is the declaration order of the
    /// implementer list.
    pub fn new(
        decl: &TraitDecl,
        as_enum: &Option<String>,
        implers: &Vec<ImplementerDefinition>,
    ) -> (r: EnumType)
        ensures
            r.deep_view().ident == spec_enum_ident(
                decl.deep_view().ident,
                as_enum.deep_view(),
            ),
            r.deep_view().visibility == decl.deep_view().vis,
            r.deep_view().variants.len() == implers.deep_view().len(),
            forall|i: int|
                0 <= i < implers.deep_view().len() ==> r.deep_view().variants[i]
                    == implers.deep_view()[i].ty,
            r.deep_view().trait_ident == decl.deep_view().ident,
            r.deep_view().trait_generics == decl.deep_view().generics,
            r.deep_view().trait_types == decl.deep_view().assoc_types,
            r.deep_view().trait_consts == decl.deep_view().assoc_consts,
            r.deep_view().trait_methods =~= spec_sigs_of_methods(decl.deep_view().methods),
    {
        let ident = match as_enum {
            Some(alias) => alias.clone(),
            None => str_concat(decl.ident.as_str(), "Value"),
        };
        let n = implers.len();
        let mut variants: Vec<String> = Vec::new();
        let mut i: usize = 0;
        while i < n
            invariant
                n == implers.len(),
                i <= n,
                variants.deep_view().len() == i,
                forall|j: int|
                    0 <= j < i ==> variants.deep_view()[j] == implers.deep_view()[j].ty,
            decreases n - i,
        {
            let ghost before = variants.deep_view();
            variants.push(implers[i].ty.clone());
            proof {
                assert(variants.deep_view() =~= before.push(
                    implers[i as int].ty.deep_view(),
                ));
                assert(implers.deep_view()[i as int] == implers[i as int].deep_view());
            }
            i += 1;
        }
        let nm = decl.methods.len();
        let mut trait_methods: Vec<SigModel> = Vec::new();
        let mut k: usize = 0;
        while k < nm
            invariant
                nm == decl.methods.len(),
                k <= nm,
                trait_methods.deep_view() =~= spec_sigs_of_methods(
                    decl.methods.deep_view(),
                ).subrange(0, k as int),
            decreases nm - k,
        {
            let ghost before = trait_methods.deep_view();
            let m = &decl.methods[k];
            let np = m.params.len();
            let mut params: Vec<SigParam> = Vec::new();
            let mut j: usize = 0;
            while j < np
                invariant
                    np == m.params.len(),
                    j <= np,
                    params.deep_view() =~= spec_sig_params(m.params.deep_view()).subrange(
                        0,
                        j as int,
                    ),
                decreases np - j,
            {
                let ghost pbefore = params.deep_view();
                params.push(
                    SigParam { name: m.params[j].name.clone(), ty: m.params[j].ty.duplicate() },
                );
                proof {
                    assert(m.params.deep_view()[j as int] == m.params[j as int].deep_view());
                    assert(params.deep_view() =~= pbefore.push(
                        SpecSigParam {
                            name: m.params.deep_view()[j as int].name,
                            ty: m.params.deep_view()[j as int].ty,
                        },
                    ));
                    assert(params.deep_view() =~= spec_sig_params(
                        m.params.deep_view(),
                    ).subrange(0, j + 1 as int));
                }
                j += 1;
            }
            let sig = SigModel {
                ident: m.ident.clone(),
                is_async: m.is_async,
                params,
                ret: m.ret.duplicate(),
            };
            proof {
                assert(sig.params.deep_view() =~= spec_sig_params(m.params.deep_view()));
                assert(decl.methods.deep_view()[k as int] == decl.methods[k as int].deep_view());
                assert(sig.deep_view() =~= spec_sig_of_method(decl.methods.deep_view()[k as int]));
            }
            let ghost sigd = sig.deep_view();
            trait_methods.push(sig);
            proof {
                assert(trait_methods.deep_view() =~= before.push(sigd));
                assert(trait_methods.deep_view() =~= spec_sigs_of_methods(
                    decl.methods.deep_view(),
                ).subrange(0, k + 1 as int));
            }
            k += 1;
        }
        let r = EnumType {
            ident,
            visibility: decl.vis.clone(),
            variants,
            trait_ident: decl.ident.clone(),
            trait_generics: decl.generics.duplicate(),
            trait_types: copy_assoc_types(&decl.assoc_types),
            trait_consts: copy_assoc_consts(&decl.assoc_consts),
            trait_methods,
        };
        proof {
            assert(r.deep_view().trait_methods =~= decl.deep_view().methods.map_values(
                |m2: crate::ast::SpecMethodModel| spec_sig_of_method(m2),
            ));
        }
        r
    }

    /// The generics of the emitted conformance blocks: empty, plus the
    /// scalar parameter bounded to the scalar capability when the code
    /// is generic over it.
    pub fn impl_generics(&self, scalar: &ScalarTy) -> (r: GenericsModel)
        ensures
            r.deep_view() == spec_backend_impl_generics(
                SpecGenericsModel { params: Seq::empty(), where_predicates: Seq::empty() },
                scalar.deep_view(),
            ),
    {
        let mut g = GenericsModel::new();
        proof {
            assert(g.deep_view() =~= SpecGenericsModel {
                params: Seq::empty(),
                where_predicates: Seq::empty(),
            });
        }
        extend_with_scalar(g, scalar)
    }
}

/// Copies a list of associated types.
pub fn copy_assoc_types(v: &Vec<AssocTypeModel>) -> (r: Vec<AssocTypeModel>)
    ensures
        r.deep_view() == v.deep_view(),
{
    let n = v.len();
    let mut r: Vec<AssocTypeModel> = Vec::new();
    let mut i: usize = 0;
    while i < n
        invariant
            n == v.len(),
            i <= n,
            r.deep_view() =~= v.deep_view().subrange(0, i as int),
        decreases n - i,
    {
        let ghost before = r.deep_view();
        r.push(
            AssocTypeModel {
                ident: v[i].ident.clone(),
                params: crate::strutil::copy_strings(&v[i].params),
            },
        );
        proof {
            assert(r.deep_view() =~= before.push(v.deep_view()[i as int]));
            assert(r.deep_view() =~= v.deep_view().subrange(0, i + 1 as int));
        }
        i += 1;
    }
    proof {
        assert(r.deep_view() =~= v.deep_view());
    }
    r
}

/// Copies a list of associated constants.
pub fn copy_assoc_consts(v: &Vec<AssocConstModel>) -> (r: Vec<AssocConstModel>)
    ensures
        r.deep_view() == v.deep_view(),
{
    let n = v.len();
    let mut r: Vec<AssocConstModel> = Vec::new();
    let mut i: usize = 0;
    while i < n
        invariant
            n == v.len(),
            i <= n,
            r.deep_view() =~= v.deep_view().subrange(0, i as int),
        decreases n - i,
    {
        let ghost before = r.deep_view();
        r.push(AssocConstModel { ident: v[i].ident.clone(), ty: v[i].ty.clone() });
        proof {
            assert(r.deep_view() =~= before.push(v.deep_view()[i as int]));
            assert(r.deep_view() =~= v.deep_view().subrange(0, i + 1 as int));
        }
        i += 1;
    }
    proof {
        assert(r.deep_view() =~= v.deep_view());
    }
    r
}

/// The given generics extended, when the code is generic over the
/// scalar, with the scalar parameter and its capability bound in the
/// where-clause.
pub open spec fn spec_backend_impl_generics(
    base: SpecGenericsModel,
    scalar: SpecScalarTy,
) -> SpecGenericsModel {
    if spec_scalar_is_generic(scalar) {
        SpecGenericsModel {
            params: base.params.push(
                crate::ast::SpecGenericParam::TyParam {
                    ident: spec_scalar_ident(scalar),
                    bounds: Seq::empty(),
                    default: None,
                },
            ),
            where_predicates: base.where_predicates.push(
                spec_scalar_ident(scalar) + ": ScalarValue"@,
            ),
        }
    } else {
        base
    }
}

/// Extends generics with the scalar parameter and its bound, when the
/// code is generic over the scalar.
pub fn extend_with_scalar(g: GenericsModel, scalar: &ScalarTy) -> (r: GenericsModel)
    ensures
        r.deep_view() == spec_backend_impl_generics(g.deep_view(), scalar.deep_view()),
{
    let ghost before = g.deep_view();
    let mut g = g;
    if scalar.is_generic() {
        let ident = scalar.ident_or_default();
        let pred = str_concat(ident.as_str(), ": ScalarValue");
        let empty_bounds: Vec<String> = Vec::new();
        proof {
            assert(empty_bounds.deep_view() =~= Seq::<Seq<char>>::empty());
        }
        let ghost params_before = g.params.deep_view();
        let ghost preds_before = g.where_predicates.deep_view();
        g.params.push(GenericParam::TyParam { ident, bounds: empty_bounds, default: None });
        g.where_predicates.push(pred);
        proof {
            assert(g.params.deep_view() =~= params_before.push(
                crate::ast::SpecGenericParam::TyParam {
                    ident: spec_scalar_ident(scalar.deep_view()),
                    bounds: Seq::empty(),
                    default: None,
                },
            ));
            assert(g.where_predicates.deep_view() =~= preds_before.push(
                spec_scalar_ident(scalar.deep_view()) + ": ScalarValue"@,
            ));
            assert(g.deep_view() =~= spec_backend_impl_generics(before, scalar.deep_view()));
        }
    }
    g
}

/// The dynamic-dispatch representation: an alias over a polymorphic
/// handle bound to the context type.
#[derive(Debug)]
pub struct TraitObjectType {
    /// The requested alias name.
    pub ident: String,
    /// Visibility, held as plain text.
    pub visibility: String,
    pub trait_ident: String,
    pub trait_generics: GenericsModel,
    /// The context type baked into the handle's capability set.
    pub context: Option<String>,
}

/// Ghost mirror of [`TraitObjectType`].
#[verifier::ext_equal]
pub struct SpecTraitObjectType {
    pub ident: Seq<char>,
    pub visibility: Seq<char>,
    pub trait_ident: Seq<char>,
    pub trait_generics: SpecGenericsModel,
    pub context: Option<Seq<char>>,
}

impl DeepView for TraitObjectType {
    type V = SpecTraitObjectType;

    open spec fn deep_view(&self) -> SpecTraitObjectType {
        SpecTraitObjectType {
            ident: self.ident.deep_view(),
            visibility: self.visibility.deep_view(),
            trait_ident: self.trait_ident.deep_view(),
            trait_generics: self.trait_generics.deep_view(),
            context: self.context.deep_view(),
        }
    }
}

impl TraitObjectType {
    /// Builds the dynamic-dispatch representation from the declaration,
    /// the requested alias, and the context type.
    pub fn new(decl: &TraitDecl, alias: &String, context: &Option<String>) -> (r: TraitObjectType)
        ensures
            r.deep_view().ident == alias.deep_view(),
            r.deep_view().visibility == decl.deep_view().vis,
            r.deep_view().trait_ident == decl.deep_view().ident,
            r.deep_view().trait_generics == decl.deep_view().generics,
            r.deep_view().context == context.deep_view(),
    {
        TraitObjectType {
            ident: alias.clone(),
            visibility: decl.vis.clone(),
            trait_ident: decl.ident.clone(),
            trait_generics: decl.generics.duplicate(),
            context: match context {
                Some(c) => Some(c.clone()),
                None => None,
            },
        }
    }

    /// The generics of the emitted conformance blocks: the trait's own
    /// parameters, one handle lifetime, and the scalar bound when the
    /// code is generic over the scalar.
    pub fn impl_generics(&self, scalar: &ScalarTy) -> (r: GenericsModel)
        ensures
            r.deep_view() == spec_dyn_impl_generics(
                self.deep_view().trait_generics,
                scalar.deep_view(),
            ),
    {
        let mut g = self.trait_generics.duplicate();
        let ghost before = g.deep_view();
        let empty_bounds: Vec<String> = Vec::new();
        proof {
            assert(empty_bounds.deep_view() =~= Seq::<Seq<char>>::empty());
        }
        g.params.push(
            GenericParam::Lifetime { ident: String::from_str("'__obj"), bounds: empty_bounds },
        );
        proof {
            assert(g.params.deep_view() =~= before.params.push(
                crate::ast::SpecGenericParam::Lifetime {
                    ident: "'__obj"@,
                    bounds: Seq::empty(),
                },
            ));
            assert(g.deep_view() =~= SpecGenericsModel {
                params: before.params.push(
                    crate::ast::SpecGenericParam::Lifetime {
                        ident: "'__obj"@,
                        bounds: Seq::empty(),
                    },
                ),
                where_predicates: before.where_predicates,
            });
        }
        if scalar.is_generic() {
            let ident = scalar.ident_or_default();
            let pred = str_concat(ident.as_str(), ": ScalarValue");
            let ghost preds_before = g.where_predicates.deep_view();
            g.where_predicates.push(pred);
            proof {
                assert(g.where_predicates.deep_view() =~= preds_before.push(
                    spec_scalar_ident(scalar.deep_view()) + ": ScalarValue"@,
                ));
                assert(g.deep_view() =~= spec_dyn_impl_generics(
                    self.deep_view().trait_generics,
                    scalar.deep_view(),
                ));
            }
        } else {
            proof {
                assert(g.deep_view() =~= spec_dyn_impl_generics(
                    self.deep_view().trait_generics,
                    scalar.deep_view(),
                ));
            }
        }
        g
    }
}

/// The trait's generics with the handle lifetime appended, and the
/// scalar bound when the code is generic over the scalar.
pub open spec fn spec_dyn_impl_generics(
    base: SpecGenericsModel,
    scalar: SpecScalarTy,
) -> SpecGenericsModel {
    let with_obj = SpecGenericsModel {
        params: base.params.push(
            crate::ast::SpecGenericParam::Lifetime { ident: "'__obj"@, bounds: Seq::empty() },
        ),
        where_predicates: base.where_predicates,
    };
    if spec_scalar_is_generic(scalar) {
        SpecGenericsModel {
            params: with_obj.params,
            where_predicates: with_obj.where_predicates.push(
                spec_scalar_ident(scalar) + ": ScalarValue"@,
            ),
        }
    } else {
        with_obj
    }
}

/// The concrete representation chosen for one interface.
#[derive(Debug)]
pub enum Representation {
    Enum(EnumType),
    TraitObject(TraitObjectType),
}

/// Ghost mirror of [`Representation`].
#[verifier::ext_equal]
pub enum SpecRepresentation {
    Enum(SpecEnumType),
    TraitObject(SpecTraitObjectType),
}

impl DeepView for Representation {
    type V = SpecRepresentation;

    open spec fn deep_view(&self) -> SpecRepresentation {
        match self {
            Representation::Enum(e) => SpecRepresentation::Enum(e.deep_view()),
            Representation::TraitObject(o) => SpecRepresentation::TraitObject(o.deep_view()),
        }
    }
}

impl Representation {
    /// Whether the dynamic-dispatch backend was chosen.
    pub fn is_trait_object(&self) -> (r: bool)
        ensures
            r == (self.deep_view() is TraitObject),
    {
        matches!(self, Representation::TraitObject(_))
    }

    /// The generics of the emitted conformance blocks.
    pub fn impl_generics(&self, scalar: &ScalarTy) -> (r: GenericsModel)
        ensures
            r.deep_view() == spec_repr_impl_generics(self.deep_view(), scalar.deep_view()),
    {
        match self {
            Representation::Enum(e) => e.impl_generics(scalar),
            Representation::TraitObject(o) => o.impl_generics(scalar),
        }
    }
}

/// The generics of the emitted conformance blocks, by backend.
pub open spec fn spec_repr_impl_generics(
    r: SpecRepresentation,
    scalar: SpecScalarTy,
) -> SpecGenericsModel {
    match r {
        SpecRepresentation::Enum(e) => spec_backend_impl_generics(
            SpecGenericsModel { params: Seq::empty(), where_predicates: Seq::empty() },
            scalar,
        ),
        SpecRepresentation::TraitObject(o) => spec_dyn_impl_generics(o.trait_generics, scalar),
    }
}

} // verus!
