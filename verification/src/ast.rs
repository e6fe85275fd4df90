//! Model of the source interface declaration.
//!
//! The declaration is an abstract type with named capability methods;
//! what the compiler reads of it is held as plain values: identifiers and
//! opaque type text as strings, and just enough type structure —
//! references, parentheses, option-wrapping — for parameter
//! classification and downcast-target extraction.

use vstd::prelude::*;

use crate::annot::{DeprecationAttr, RawOption, SpecDeprecationAttr, SpecRawOption, SpecSpanned,
    Spanned};
use crate::strutil::{copy_strings, str_concat};

verus! {

/// The structure of a declared type, as far as the compiler reads it:
/// everything else stays opaque text under `Name`.
#[derive(Debug)]
pub enum TyExpr {
    /// An opaque type, as written.
    Name(String),
    /// A reference `&T` (lifetimes elided in the model).
    Ref(Box<TyExpr>),
    /// A parenthesized `(T)`.
    Paren(Box<TyExpr>),
    /// An optional value `Option<T>`.
    OptionOf(Box<TyExpr>),
}

/// Ghost mirror of [`TyExpr`].
#[verifier::ext_equal]
pub enum SpecTyExpr {
    Name(Seq<char>),
    Ref(Box<SpecTyExpr>),
    Paren(Box<SpecTyExpr>),
    OptionOf(Box<SpecTyExpr>),
}

/// The ghost mirror of a declared type.
pub open spec fn spec_view_ty(t: TyExpr) -> SpecTyExpr
    decreases t,
{
    match t {
        TyExpr::Name(s) => SpecTyExpr::Name(s.deep_view()),
        TyExpr::Ref(inner) => SpecTyExpr::Ref(Box::new(spec_view_ty(*inner))),
        TyExpr::Paren(inner) => SpecTyExpr::Paren(Box::new(spec_view_ty(*inner))),
        TyExpr::OptionOf(inner) => SpecTyExpr::OptionOf(Box::new(spec_view_ty(*inner))),
    }
}

impl DeepView for TyExpr {
    type V = SpecTyExpr;

    open spec fn deep_view(&self) -> SpecTyExpr {
        spec_view_ty(*self)
    }
}

/// The innermost non-parenthesized type.
pub open spec fn spec_unparenthesized(t: SpecTyExpr) -> SpecTyExpr
    decreases t,
{
    match t {
        SpecTyExpr::Paren(inner) => spec_unparenthesized(*inner),
        _ => t,
    }
}

/// The type behind one reference, if the unparenthesized type is one.
pub open spec fn spec_unreferenced(t: SpecTyExpr) -> SpecTyExpr {
    match spec_unparenthesized(t) {
        SpecTyExpr::Ref(inner) => *inner,
        u => u,
    }
}

/// The implementer type a downcast method narrows to: its result must be
/// an optional reference to that type.
pub open spec fn spec_downcast_target(ret: SpecTyExpr) -> Option<Seq<char>> {
    match spec_unreferenced(ret) {
        SpecTyExpr::OptionOf(inner) => match spec_unreferenced(*inner) {
            SpecTyExpr::Name(s) => Some(s),
            _ => None,
        },
        _ => None,
    }
}

impl TyExpr {
    /// Retrieves the innermost non-parenthesized type.
    pub fn unparenthesized(&self) -> (r: &TyExpr)
        ensures
            r.deep_view() == spec_unparenthesized(self.deep_view()),
        decreases self,
    {
        match self {
            TyExpr::Paren(inner) => inner.unparenthesized(),
            _ => self,
        }
    }

    /// Retrieves the type behind one reference, or the type as is;
    /// unparenthesizes first.
    pub fn unreferenced(&self) -> (r: &TyExpr)
        ensures
            r.deep_view() == spec_unreferenced(self.deep_view()),
    {
        match self.unparenthesized() {
            TyExpr::Ref(inner) => inner,
            u => u,
        }
    }

    /// The implementer type this method result narrows to, when it has
    /// the shape of an optional reference.
    pub fn downcast_target(&self) -> (r: Option<&String>)
        ensures
            match r {
                Some(s) => spec_downcast_target(self.deep_view()) == Some(s.deep_view()),
                None => spec_downcast_target(self.deep_view()) is None,
            },
    {
        match self.unreferenced() {
            TyExpr::OptionOf(inner) => match inner.unreferenced() {
                TyExpr::Name(s) => Some(s),
                _ => None,
            },
            _ => None,
        }
    }

    /// Copies the type.
    pub fn duplicate(&self) -> (r: TyExpr)
        ensures
            r.deep_view() == self.deep_view(),
        decreases self,
    {
        match self {
            TyExpr::Name(s) => TyExpr::Name(s.clone()),
            TyExpr::Ref(inner) => TyExpr::Ref(Box::new(inner.duplicate())),
            TyExpr::Paren(inner) => TyExpr::Paren(Box::new(inner.duplicate())),
            TyExpr::OptionOf(inner) => TyExpr::OptionOf(Box::new(inner.duplicate())),
        }
    }
}

/// One generic parameter of the declaration.
#[derive(Clone, Debug, PartialEq, Eq)]
pub enum GenericParam {
    /// A lifetime parameter with its bounds.
    Lifetime { ident: String, bounds: Vec<String> },
    /// A type parameter with its bounds and optional default.
    TyParam { ident: String, bounds: Vec<String>, default: Option<String> },
    /// A const parameter with its optional default.
    ConstParam { ident: String, default: Option<String> },
}

/// Ghost mirror of [`GenericParam`].
#[verifier::ext_equal]
pub enum SpecGenericParam {
    Lifetime { ident: Seq<char>, bounds: Seq<Seq<char>> },
    TyParam { ident: Seq<char>, bounds: Seq<Seq<char>>, default: Option<Seq<char>> },
    ConstParam { ident: Seq<char>, default: Option<Seq<char>> },
}

impl DeepView for GenericParam {
    type V = SpecGenericParam;

    open spec fn deep_view(&self) -> SpecGenericParam {
        match self {
            GenericParam::Lifetime { ident, bounds } => SpecGenericParam::Lifetime {
                ident: ident.deep_view(),
                bounds: bounds.deep_view(),
            },
            GenericParam::TyParam { ident, bounds, default } => SpecGenericParam::TyParam {
                ident: ident.deep_view(),
                bounds: bounds.deep_view(),
                default: default.deep_view(),
            },
            GenericParam::ConstParam { ident, default } => SpecGenericParam::ConstParam {
                ident: ident.deep_view(),
                default: default.deep_view(),
            },
        }
    }
}

/// The generic parameters and where-clause of the declaration.
#[derive(Clone, Debug, PartialEq, Eq)]
pub struct GenericsModel {
    pub params: Vec<GenericParam>,
    /// Where-clause predicates, held as plain text.
    pub where_predicates: Vec<String>,
}

/// Ghost mirror of [`GenericsModel`].
#[verifier::ext_equal]
pub struct SpecGenericsModel {
    pub params: Seq<SpecGenericParam>,
    pub where_predicates: Seq<Seq<char>>,
}

impl DeepView for GenericsModel {
    type V = SpecGenericsModel;

    open spec fn deep_view(&self) -> SpecGenericsModel {
        SpecGenericsModel {
            params: self.params.deep_view(),
            where_predicates: self.where_predicates.deep_view(),
        }
    }
}

/// One parameter with its defaults stripped.
pub open spec fn spec_param_remove_default(p: SpecGenericParam) -> SpecGenericParam {
    match p {
        SpecGenericParam::Lifetime { .. } => p,
        SpecGenericParam::TyParam { ident, bounds, default } => SpecGenericParam::TyParam {
            ident,
            bounds,
            default: None,
        },
        SpecGenericParam::ConstParam { ident, default } => SpecGenericParam::ConstParam {
            ident,
            default: None,
        },
    }
}

/// The generics with every type and const default stripped.
pub open spec fn spec_remove_defaults(g: SpecGenericsModel) -> SpecGenericsModel {
    SpecGenericsModel {
        params: g.params.map_values(|p: SpecGenericParam| spec_param_remove_default(p)),
        where_predicates: g.where_predicates,
    }
}

/// The bounds of a list joined with `+`, in order.
pub open spec fn spec_join_upto(bounds: Seq<Seq<char>>, i: int) -> Seq<char>
    decreases i,
{
    if i <= 0 {
        Seq::empty()
    } else if i == 1 {
        bounds[0]
    } else {
        spec_join_upto(bounds, i - 1) + " + "@ + bounds[i - 1]
    }
}

pub open spec fn spec_join_bounds(bounds: Seq<Seq<char>>) -> Seq<char> {
    spec_join_upto(bounds, bounds.len() as int)
}

/// The where-clause predicate standing for one bounded parameter.
pub open spec fn spec_bound_predicate(ident: Seq<char>, bounds: Seq<Seq<char>>) -> Seq<char> {
    ident + ": "@ + spec_join_bounds(bounds)
}

/// Whether a parameter carries bounds that belong in the where-clause.
pub open spec fn spec_param_bounded(p: SpecGenericParam) -> bool {
    match p {
        SpecGenericParam::Lifetime { bounds, .. } => bounds.len() > 0,
        SpecGenericParam::TyParam { bounds, .. } => bounds.len() > 0,
        SpecGenericParam::ConstParam { .. } => false,
    }
}

/// The predicate a bounded parameter contributes.
pub open spec fn spec_param_predicate(p: SpecGenericParam) -> Seq<char> {
    match p {
        SpecGenericParam::Lifetime { ident, bounds } => spec_bound_predicate(ident, bounds),
        SpecGenericParam::TyParam { ident, bounds, .. } => spec_bound_predicate(ident, bounds),
        SpecGenericParam::ConstParam { ident, .. } => ident,
    }
}

/// One parameter with its bounds moved out.
pub open spec fn spec_param_unbounded(p: SpecGenericParam) -> SpecGenericParam {
    match p {
        SpecGenericParam::Lifetime { ident, bounds } => SpecGenericParam::Lifetime {
            ident,
            bounds: Seq::empty(),
        },
        SpecGenericParam::TyParam { ident, bounds, default } => SpecGenericParam::TyParam {
            ident,
            bounds: Seq::empty(),
            default,
        },
        SpecGenericParam::ConstParam { .. } => p,
    }
}

/// The predicates that the bounded parameters contribute, in order.
pub open spec fn spec_moved_predicates(params: Seq<SpecGenericParam>, i: int) -> Seq<Seq<char>>
    decreases params.len() - i,
{
    if i < 0 || i >= params.len() {
        Seq::empty()
    } else if spec_param_bounded(params[i]) {
        seq![spec_param_predicate(params[i])] + spec_moved_predicates(params, i + 1)
    } else {
        spec_moved_predicates(params, i + 1)
    }
}

/// The generics with every parameter bound moved into the where-clause.
pub open spec fn spec_move_bounds(g: SpecGenericsModel) -> SpecGenericsModel {
    SpecGenericsModel {
        params: g.params.map_values(|p: SpecGenericParam| spec_param_unbounded(p)),
        where_predicates: g.where_predicates + spec_moved_predicates(g.params, 0),
    }
}

/// Joins bound texts with `+`.
fn join_bounds(bounds: &Vec<String>) -> (r: String)
    ensures
        r@ == spec_join_bounds(bounds.deep_view()),
{
    let n = bounds.len();
    let mut s = String::new();
    let mut i: usize = 0;
    while i < n
        invariant
            n == bounds.len(),
            i <= n,
            s@ == spec_join_upto(bounds.deep_view(), i as int),
        decreases n - i,
    {
        if i > 0 {
            s.append(" + ");
        }
        s.append(bounds[i].as_str());
        proof {
            assert(bounds.deep_view()[i as int] == bounds[i as int].deep_view());
            if i == 0 {
                assert(s@ =~= spec_join_upto(bounds.deep_view(), 1));
            }
        }
        i += 1;
    }
    s
}

impl GenericsModel {
    /// Generics with no parameters and no where-clause.
    pub fn new() -> (g: GenericsModel)
        ensures
            g.deep_view().params.len() == 0,
            g.deep_view().where_predicates.len() == 0,
    {
        let g = GenericsModel { params: Vec::new(), where_predicates: Vec::new() };
        proof {
            assert(g.deep_view().params =~= Seq::<SpecGenericParam>::empty());
            assert(g.deep_view().where_predicates =~= Seq::<Seq<char>>::empty());
        }
        g
    }

    /// Copies the generics.
    pub fn duplicate(&self) -> (r: GenericsModel)
        ensures
            r.deep_view() == self.deep_view(),
    {
        let n = self.params.len();
        let mut params: Vec<GenericParam> = Vec::new();
        let mut i: usize = 0;
        while i < n
            invariant
                n == self.params.len(),
                i <= n,
                params.deep_view() =~= self.params.deep_view().subrange(0, i as int),
            decreases n - i,
        {
            let ghost before = params.deep_view();
            let p = match &self.params[i] {
                GenericParam::Lifetime { ident, bounds } => GenericParam::Lifetime {
                    ident: ident.clone(),
                    bounds: copy_strings(bounds),
                },
                GenericParam::TyParam { ident, bounds, default } => GenericParam::TyParam {
                    ident: ident.clone(),
                    bounds: copy_strings(bounds),
                    default: match default {
                        Some(d) => Some(d.clone()),
                        None => None,
                    },
                },
                GenericParam::ConstParam { ident, default } => GenericParam::ConstParam {
                    ident: ident.clone(),
                    default: match default {
                        Some(d) => Some(d.clone()),
                        None => None,
                    },
                },
            };
            params.push(p);
            proof {
                assert(params.deep_view() =~= before.push(self.params.deep_view()[i as int]));
                assert(params.deep_view() =~= self.params.deep_view().subrange(0, i + 1 as int));
            }
            i += 1;
        }
        let r = GenericsModel { params, where_predicates: copy_strings(&self.where_predicates) };
        proof {
            assert(r.deep_view().params =~= self.deep_view().params);
            assert(r.deep_view() =~= self.deep_view());
        }
        r
    }

    /// Strips the default of every type and const parameter.
    pub fn remove_defaults(&mut self)
        ensures
            final(self).deep_view() == spec_remove_defaults(old(self).deep_view()),
    {
        let ghost oldg = self.deep_view();
        let n = self.params.len();
        let mut params: Vec<GenericParam> = Vec::new();
        let mut i: usize = 0;
        while i < n
            invariant
                n == oldg.params.len(),
                self.deep_view() == oldg,
                n == self.params.len(),
                i <= n,
                params.deep_view() =~= oldg.params.map_values(
                    |p: SpecGenericParam| spec_param_remove_default(p),
                ).subrange(0, i as int),
            decreases n - i,
        {
            let ghost before = params.deep_view();
            let p = match &self.params[i] {
                GenericParam::Lifetime { ident, bounds } => GenericParam::Lifetime {
                    ident: ident.clone(),
                    bounds: copy_strings(bounds),
                },
                GenericParam::TyParam { ident, bounds, default } => GenericParam::TyParam {
                    ident: ident.clone(),
                    bounds: copy_strings(bounds),
                    default: None,
                },
                GenericParam::ConstParam { ident, default } => GenericParam::ConstParam {
                    ident: ident.clone(),
                    default: None,
                },
            };
            params.push(p);
            proof {
                assert(oldg.params[i as int] == self.params.deep_view()[i as int]);
                assert(p.deep_view() == spec_param_remove_default(oldg.params[i as int]));
                assert(params.deep_view() =~= before.push(p.deep_view()));
                assert(params.deep_view() =~= oldg.params.map_values(
                    |q: SpecGenericParam| spec_param_remove_default(q),
                ).subrange(0, i + 1 as int));
            }
            i += 1;
        }
        self.params = params;
        proof {
            assert(self.deep_view() =~= spec_remove_defaults(oldg));
        }
    }

    /// Moves every parameter bound into the where-clause, as the emitted
    /// alias positions require.
    pub fn move_bounds_to_where_clause(&mut self)
        ensures
            final(self).deep_view() == spec_move_bounds(old(self).deep_view()),
    {
        let ghost oldg = self.deep_view();
        let n = self.params.len();
        let mut params: Vec<GenericParam> = Vec::new();
        let mut preds: Vec<String> = copy_strings(&self.where_predicates);
        let mut i: usize = 0;
        while i < n
            invariant
                n == oldg.params.len(),
                self.deep_view() == oldg,
                n == self.params.len(),
                i <= n,
                params.deep_view() =~= oldg.params.map_values(
                    |p: SpecGenericParam| spec_param_unbounded(p),
                ).subrange(0, i as int),
                preds.deep_view() + spec_moved_predicates(oldg.params, i as int)
                    =~= oldg.where_predicates + spec_moved_predicates(oldg.params, 0),
            decreases n - i,
        {
            let ghost before_params = params.deep_view();
            let ghost before_preds = preds.deep_view();
            match &self.params[i] {
                GenericParam::Lifetime { ident, bounds } => {
                    if bounds.len() > 0 {
                        let head = str_concat(ident.as_str(), ": ");
                        let joined = join_bounds(bounds);
                        let pred = str_concat(head.as_str(), joined.as_str());
                        preds.push(pred);
                    }
                    let empty_bounds: Vec<String> = Vec::new();
                    proof {
                        assert(empty_bounds.deep_view() =~= Seq::<Seq<char>>::empty());
                    }
                    params.push(
                        GenericParam::Lifetime { ident: ident.clone(), bounds: empty_bounds },
                    );
                },
                GenericParam::TyParam { ident, bounds, default } => {
                    if bounds.len() > 0 {
                        let head = str_concat(ident.as_str(), ": ");
                        let joined = join_bounds(bounds);
                        let pred = str_concat(head.as_str(), joined.as_str());
                        preds.push(pred);
                    }
                    let empty_bounds: Vec<String> = Vec::new();
                    proof {
                        assert(empty_bounds.deep_view() =~= Seq::<Seq<char>>::empty());
                    }
                    params.push(
                        GenericParam::TyParam {
                            ident: ident.clone(),
                            bounds: empty_bounds,
                            default: match default {
                                Some(d) => Some(d.clone()),
                                None => None,
                            },
                        },
                    );
                },
                GenericParam::ConstParam { ident, default } => {
                    params.push(
                        GenericParam::ConstParam {
                            ident: ident.clone(),
                            default: match default {
                                Some(d) => Some(d.clone()),
                                None => None,
                            },
                        },
                    );
                },
            };
            proof {
                assert(oldg.params[i as int] == self.params.deep_view()[i as int]);
                assert(params.deep_view() =~= before_params.push(
                    spec_param_unbounded(oldg.params[i as int]),
                ));
                assert(params.deep_view() =~= oldg.params.map_values(
                    |q: SpecGenericParam| spec_param_unbounded(q),
                ).subrange(0, i + 1 as int));
                if spec_param_bounded(oldg.params[i as int]) {
                    assert(preds.deep_view() =~= before_preds.push(
                        spec_param_predicate(oldg.params[i as int]),
                    ));
                    assert(spec_moved_predicates(oldg.params, i as int) =~= seq![
                        spec_param_predicate(oldg.params[i as int]),
                    ] + spec_moved_predicates(oldg.params, i + 1));
                } else {
                    assert(preds.deep_view() =~= before_preds);
                }
                assert(preds.deep_view() + spec_moved_predicates(oldg.params, i + 1)
                    =~= oldg.where_predicates + spec_moved_predicates(oldg.params, 0));
            }
            i += 1;
        }
        self.params = params;
        self.where_predicates = preds;
        proof {
            assert(spec_moved_predicates(oldg.params, n as int) =~= Seq::<Seq<char>>::empty());
            assert(self.deep_view().where_predicates =~= spec_move_bounds(oldg).where_predicates);
            assert(self.deep_view() =~= spec_move_bounds(oldg));
        }
    }

    /// The identifiers of all parameters, in order.
    pub fn param_idents(&self) -> (r: Vec<String>)
        ensures
            r.deep_view().len() == self.deep_view().params.len(),
            forall|i: int|
                0 <= i < r.deep_view().len() ==> r.deep_view()[i] == spec_param_ident(
                    self.deep_view().params[i],
                ),
    {
        let n = self.params.len();
        let mut r: Vec<String> = Vec::new();
        let mut i: usize = 0;
        while i < n
            invariant
                n == self.params.len(),
                i <= n,
                r.deep_view().len() == i,
                forall|j: int|
                    0 <= j < i ==> r.deep_view()[j] == spec_param_ident(
                        self.params.deep_view()[j],
                    ),
            decreases n - i,
        {
            let ghost before = r.deep_view();
            let id = match &self.params[i] {
                GenericParam::Lifetime { ident, .. } => ident.clone(),
                GenericParam::TyParam { ident, .. } => ident.clone(),
                GenericParam::ConstParam { ident, .. } => ident.clone(),
            };
            r.push(id);
            proof {
                assert(r.deep_view() =~= before.push(r.deep_view()[i as int]));
            }
            i += 1;
        }
        r
    }
}

/// The identifier of a generic parameter.
pub open spec fn spec_param_ident(p: SpecGenericParam) -> Seq<char> {
    match p {
        SpecGenericParam::Lifetime { ident, .. } => ident,
        SpecGenericParam::TyParam { ident, .. } => ident,
        SpecGenericParam::ConstParam { ident, .. } => ident,
    }
}

/// One typed parameter of a capability method, with its annotation sites.
#[derive(Debug)]
pub struct ParamModel {
    pub name: String,
    pub ty: TyExpr,
    pub attrs: Vec<Vec<RawOption>>,
}

/// Ghost mirror of [`ParamModel`].
#[verifier::ext_equal]
pub struct SpecParamModel {
    pub name: Seq<char>,
    pub ty: SpecTyExpr,
    pub attrs: Seq<Seq<SpecRawOption>>,
}

impl DeepView for ParamModel {
    type V = SpecParamModel;

    open spec fn deep_view(&self) -> SpecParamModel {
        SpecParamModel {
            name: self.name.deep_view(),
            ty: self.ty.deep_view(),
            attrs: self.attrs.deep_view(),
        }
    }
}

/// One capability method of the declaration, with its annotation sites
/// and what the doc-comment/deprecation extractor handed in for it.
#[derive(Debug)]
pub struct MethodModel {
    pub ident: String,
    pub is_async: bool,
    pub params: Vec<ParamModel>,
    pub ret: TyExpr,
    pub attrs: Vec<Vec<RawOption>>,
    pub doc: Option<Spanned<String>>,
    pub deprecation: Option<DeprecationAttr>,
}

/// Ghost mirror of [`MethodModel`].
#[verifier::ext_equal]
pub struct SpecMethodModel {
    pub ident: Seq<char>,
    pub is_async: bool,
    pub params: Seq<SpecParamModel>,
    pub ret: SpecTyExpr,
    pub attrs: Seq<Seq<SpecRawOption>>,
    pub doc: Option<SpecSpanned<Seq<char>>>,
    pub deprecation: Option<SpecDeprecationAttr>,
}

impl DeepView for MethodModel {
    type V = SpecMethodModel;

    open spec fn deep_view(&self) -> SpecMethodModel {
        SpecMethodModel {
            ident: self.ident.deep_view(),
            is_async: self.is_async,
            params: self.params.deep_view(),
            ret: self.ret.deep_view(),
            attrs: self.attrs.deep_view(),
            doc: self.doc.deep_view(),
            deprecation: self.deprecation.deep_view(),
        }
    }
}

/// One associated type of the declaration, with its own parameter
/// identifiers.
#[derive(Clone, Debug, PartialEq, Eq)]
pub struct AssocTypeModel {
    pub ident: String,
    pub params: Vec<String>,
}

/// Ghost mirror of [`AssocTypeModel`].
#[verifier::ext_equal]
pub struct SpecAssocTypeModel {
    pub ident: Seq<char>,
    pub params: Seq<Seq<char>>,
}

impl DeepView for AssocTypeModel {
    type V = SpecAssocTypeModel;

    open spec fn deep_view(&self) -> SpecAssocTypeModel {
        SpecAssocTypeModel { ident: self.ident.deep_view(), params: self.params.deep_view() }
    }
}

/// One associated constant of the declaration.
#[derive(Clone, Debug, PartialEq, Eq)]
pub struct AssocConstModel {
    pub ident: String,
    pub ty: String,
}

/// Ghost mirror of [`AssocConstModel`].
#[verifier::ext_equal]
pub struct SpecAssocConstModel {
    pub ident: Seq<char>,
    pub ty: Seq<char>,
}

impl DeepView for AssocConstModel {
    type V = SpecAssocConstModel;

    open spec fn deep_view(&self) -> SpecAssocConstModel {
        SpecAssocConstModel { ident: self.ident.deep_view(), ty: self.ty.deep_view() }
    }
}

/// The source interface declaration.
#[derive(Debug)]
pub struct TraitDecl {
    pub ident: String,
    /// Visibility, held as plain text (empty for inherited).
    pub vis: String,
    pub generics: GenericsModel,
    pub assoc_types: Vec<AssocTypeModel>,
    pub assoc_consts: Vec<AssocConstModel>,
    pub methods: Vec<MethodModel>,
    /// Annotation sites placed on the declaration itself.
    pub attrs: Vec<Vec<RawOption>>,
    /// What the doc-comment extractor handed in for the declaration.
    pub doc: Option<Spanned<String>>,
}

/// Ghost mirror of [`TraitDecl`].
#[verifier::ext_equal]
pub struct SpecTraitDecl {
    pub ident: Seq<char>,
    pub vis: Seq<char>,
    pub generics: SpecGenericsModel,
    pub assoc_types: Seq<SpecAssocTypeModel>,
    pub assoc_consts: Seq<SpecAssocConstModel>,
    pub methods: Seq<SpecMethodModel>,
    pub attrs: Seq<Seq<SpecRawOption>>,
    pub doc: Option<SpecSpanned<Seq<char>>>,
}

impl DeepView for TraitDecl {
    type V = SpecTraitDecl;

    open spec fn deep_view(&self) -> SpecTraitDecl {
        SpecTraitDecl {
            ident: self.ident.deep_view(),
            vis: self.vis.deep_view(),
            generics: self.generics.deep_view(),
            assoc_types: self.assoc_types.deep_view(),
            assoc_consts: self.assoc_consts.deep_view(),
            methods: self.methods.deep_view(),
            attrs: self.attrs.deep_view(),
            doc: self.doc.deep_view(),
        }
    }
}

} // verus!
