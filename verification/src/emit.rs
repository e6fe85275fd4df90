//! The code emitter.
//!
//! Emission is modeled as structured plans: each plan pins down exactly
//! what the emitted artifact contains and in what order, which is what
//! the downstream schema executor depends on — stable field ordering,
//! registration of every implementer before field metadata, exhaustive
//! field dispatch, and the uniform suspended shape of every
//! asynchronous path. Rendering the plans to source text is a plain
//! conversion left to the embedding.

use vstd::prelude::*;

use crate::ast::{
    AssocConstModel, AssocTypeModel, GenericParam, SpecAssocConstModel, SpecAssocTypeModel,
    SpecGenericParam, SpecTyExpr, TyExpr, spec_move_bounds, spec_param_ident,
    spec_remove_defaults,
};
use crate::definition::{
    Definition, ImplementerDefinition, InterfaceFieldDefinition, MethodArgument, SpecDefinition,
    SpecImplementerDefinition, SpecImplementerDowncastDefinition, SpecInterfaceFieldDefinition,
    SpecMethodArgument,
};
use crate::repr::{
    EnumType, Representation, SigModel, SpecEnumType, SpecRepresentation, SpecSigModel,
    SpecTraitObjectType, TraitObjectType, copy_assoc_consts, copy_assoc_types, spec_variant_ident,
    variant_ident,
};
use crate::strutil::{lex_sorted, sort_strings, str_concat, str_eq};

verus! {

/// The registration of one exposed argument in the field metadata.
#[derive(Debug)]
pub struct ArgumentRegistration {
    pub name: String,
    pub ty: TyExpr,
    pub description: Option<String>,
    /// Registered with a default: a given expression, or the argument
    /// type's own default.
    pub default: Option<Option<String>>,
}

/// Ghost mirror of [`ArgumentRegistration`].
#[verifier::ext_equal]
pub struct SpecArgumentRegistration {
    pub name: Seq<char>,
    pub ty: SpecTyExpr,
    pub description: Option<Seq<char>>,
    pub default: Option<Option<Seq<char>>>,
}

impl DeepView for ArgumentRegistration {
    type V = SpecArgumentRegistration;

    open spec fn deep_view(&self) -> SpecArgumentRegistration {
        SpecArgumentRegistration {
            name: self.name.deep_view(),
            ty: self.ty.deep_view(),
            description: self.description.deep_view(),
            default: self.default.deep_view(),
        }
    }
}

/// What one registered argument is: only exposed arguments register;
/// the context and the executor stay out of the schema.
pub open spec fn spec_arg_registration(a: SpecMethodArgument) -> Option<SpecArgumentRegistration> {
    match a {
        SpecMethodArgument::Regular(d) => Some(
            SpecArgumentRegistration {
                name: d.name,
                ty: d.ty,
                description: d.description,
                default: d.default,
            },
        ),
        _ => None,
    }
}

/// Where one call argument of the dispatched method comes from at
/// resolution time.
#[derive(Debug)]
pub enum ArgumentSource {
    /// Looked up in the request's argument map, by exposed name, at the
    /// declared type.
    FromArgs { name: String, ty: TyExpr },
    /// Converted out of the executor's context.
    FromContext,
    /// The executor handle itself.
    FromExecutor,
}

/// Ghost mirror of [`ArgumentSource`].
#[verifier::ext_equal]
pub enum SpecArgumentSource {
    FromArgs { name: Seq<char>, ty: SpecTyExpr },
    FromContext,
    FromExecutor,
}

impl DeepView for ArgumentSource {
    type V = SpecArgumentSource;

    open spec fn deep_view(&self) -> SpecArgumentSource {
        match self {
            ArgumentSource::FromArgs { name, ty } => SpecArgumentSource::FromArgs {
                name: name.deep_view(),
                ty: ty.deep_view(),
            },
            ArgumentSource::FromContext => SpecArgumentSource::FromContext,
            ArgumentSource::FromExecutor => SpecArgumentSource::FromExecutor,
        }
    }
}

/// Where one classified parameter's value comes from at resolution time.
pub open spec fn spec_arg_source(a: SpecMethodArgument) -> SpecArgumentSource {
    match a {
        SpecMethodArgument::Regular(d) => SpecArgumentSource::FromArgs { name: d.name, ty: d.ty },
        SpecMethodArgument::Context(_) => SpecArgumentSource::FromContext,
        SpecMethodArgument::Executor => SpecArgumentSource::FromExecutor,
    }
}

/// The sources of a whole argument list, in order.
pub open spec fn spec_arg_sources(args: Seq<SpecMethodArgument>) -> Seq<SpecArgumentSource> {
    Seq::new(args.len(), |i: int| spec_arg_source(args[i]))
}

/// The registrations of a whole argument list: the exposed arguments
/// only, in order.
pub open spec fn spec_arg_registrations(args: Seq<SpecMethodArgument>, i: int) -> Seq<
    SpecArgumentRegistration,
>
    decreases args.len() - i,
{
    if i < 0 || i >= args.len() {
        Seq::empty()
    } else {
        match spec_arg_registration(args[i]) {
            Some(a) => seq![a] + spec_arg_registrations(args, i + 1),
            None => spec_arg_registrations(args, i + 1),
        }
    }
}

impl MethodArgument {
    /// The argument's schema registration, when it is exposed.
    pub fn registration(&self) -> (r: Option<ArgumentRegistration>)
        ensures
            r.deep_view() == spec_arg_registration(self.deep_view()),
    {
        match self {
            MethodArgument::Regular(d) => Some(
                ArgumentRegistration {
                    name: d.name.clone(),
                    ty: d.ty.duplicate(),
                    description: match &d.description {
                        Some(s) => Some(s.clone()),
                        None => None,
                    },
                    default: match &d.default {
                        Some(e) => match e {
                            Some(x) => Some(Some(x.clone())),
                            None => Some(None),
                        },
                        None => None,
                    },
                },
            ),
            _ => None,
        }
    }

    /// Where the argument's value comes from at resolution time.
    pub fn source(&self) -> (r: ArgumentSource)
        ensures
            r.deep_view() == spec_arg_source(self.deep_view()),
    {
        match self {
            MethodArgument::Regular(d) => ArgumentSource::FromArgs {
                name: d.name.clone(),
                ty: d.ty.duplicate(),
            },
            MethodArgument::Context(_) => ArgumentSource::FromContext,
            MethodArgument::Executor => ArgumentSource::FromExecutor,
        }
    }
}

/// The metadata registration of one field.
#[derive(Debug)]
pub struct FieldRegistration {
    pub name: String,
    pub ty: TyExpr,
    pub args: Vec<ArgumentRegistration>,
    pub description: Option<String>,
    pub deprecated: Option<Option<String>>,
}

/// Ghost mirror of [`FieldRegistration`].
#[verifier::ext_equal]
pub struct SpecFieldRegistration {
    pub name: Seq<char>,
    pub ty: SpecTyExpr,
    pub args: Seq<SpecArgumentRegistration>,
    pub description: Option<Seq<char>>,
    pub deprecated: Option<Option<Seq<char>>>,
}

impl DeepView for FieldRegistration {
    type V = SpecFieldRegistration;

    open spec fn deep_view(&self) -> SpecFieldRegistration {
        SpecFieldRegistration {
            name: self.name.deep_view(),
            ty: self.ty.deep_view(),
            args: self.args.deep_view(),
            description: self.description.deep_view(),
            deprecated: self.deprecated.deep_view(),
        }
    }
}

/// The metadata registration of one field: its exposed name and type,
/// its exposed arguments in order, its description and deprecation.
pub open spec fn spec_field_registration(f: SpecInterfaceFieldDefinition) -> SpecFieldRegistration {
    SpecFieldRegistration {
        name: f.name,
        ty: f.ty,
        args: spec_arg_registrations(f.arguments, 0),
        description: f.description,
        deprecated: f.deprecated,
    }
}

/// One arm of the synchronous field dispatch: the field name, the
/// method forwarded to, and where each call argument comes from.
#[derive(Debug)]
pub struct SyncFieldArm {
    pub name: String,
    pub method: String,
    pub args: Vec<ArgumentSource>,
}

/// Ghost mirror of [`SyncFieldArm`].
#[verifier::ext_equal]
pub struct SpecSyncFieldArm {
    pub name: Seq<char>,
    pub method: Seq<char>,
    pub args: Seq<SpecArgumentSource>,
}

impl DeepView for SyncFieldArm {
    type V = SpecSyncFieldArm;

    open spec fn deep_view(&self) -> SpecSyncFieldArm {
        SpecSyncFieldArm {
            name: self.name.deep_view(),
            method: self.method.deep_view(),
            args: self.args.deep_view(),
        }
    }
}

pub open spec fn spec_sync_arm(f: SpecInterfaceFieldDefinition) -> SpecSyncFieldArm {
    SpecSyncFieldArm { name: f.name, method: f.method, args: spec_arg_sources(f.arguments) }
}

/// One arm of the asynchronous field dispatch. Every arm produces a
/// suspended computation: a synchronous method's immediate result is
/// wrapped into an immediately ready one.
#[derive(Debug)]
pub struct AsyncFieldArm {
    pub name: String,
    pub method: String,
    pub args: Vec<ArgumentSource>,
    /// Whether the immediate result is wrapped into a ready suspension:
    /// exactly when the method itself is synchronous.
    pub wrap_ready: bool,
}

/// Ghost mirror of [`AsyncFieldArm`].
#[verifier::ext_equal]
pub struct SpecAsyncFieldArm {
    pub name: Seq<char>,
    pub method: Seq<char>,
    pub args: Seq<SpecArgumentSource>,
    pub wrap_ready: bool,
}

impl DeepView for AsyncFieldArm {
    type V = SpecAsyncFieldArm;

    open spec fn deep_view(&self) -> SpecAsyncFieldArm {
        SpecAsyncFieldArm {
            name: self.name.deep_view(),
            method: self.method.deep_view(),
            args: self.args.deep_view(),
            wrap_ready: self.wrap_ready,
        }
    }
}

pub open spec fn spec_async_arm(f: SpecInterfaceFieldDefinition) -> SpecAsyncFieldArm {
    SpecAsyncFieldArm {
        name: f.name,
        method: f.method,
        args: spec_arg_sources(f.arguments),
        wrap_ready: !f.is_async,
    }
}

/// Builds the argument sources of one field, in order.
fn arg_sources(args: &Vec<MethodArgument>) -> (r: Vec<ArgumentSource>)
    ensures
        r.deep_view() =~= spec_arg_sources(args.deep_view()),
{
    let n = args.len();
    let mut r: Vec<ArgumentSource> = Vec::new();
    let mut i: usize = 0;
    while i < n
        invariant
            n == args.len(),
            i <= n,
            r.deep_view() =~= spec_arg_sources(args.deep_view()).subrange(0, i as int),
        decreases n - i,
    {
        let ghost before = r.deep_view();
        let s = args[i].source();
        let ghost sd = s.deep_view();
        r.push(s);
        proof {
            assert(args.deep_view()[i as int] == args[i as int].deep_view());
            assert(r.deep_view() =~= before.push(sd));
            assert(r.deep_view() =~= spec_arg_sources(args.deep_view()).subrange(0, i + 1 as int));
        }
        i += 1;
    }
    proof {
        assert(r.deep_view() =~= spec_arg_sources(args.deep_view()));
    }
    r
}

impl InterfaceFieldDefinition {
    /// The field's metadata registration.
    pub fn registration(&self) -> (r: FieldRegistration)
        ensures
            r.deep_view() == spec_field_registration(self.deep_view()),
    {
        let ghost argsd = self.arguments.deep_view();
        let n = self.arguments.len();
        let mut args: Vec<ArgumentRegistration> = Vec::new();
        let mut i: usize = 0;
        proof {
            assert(args.deep_view() =~= Seq::<SpecArgumentRegistration>::empty());
        }
        while i < n
            invariant
                n == self.arguments.len(),
                argsd == self.arguments.deep_view(),
                i <= n,
                spec_arg_registrations(argsd, 0) =~= args.deep_view() + spec_arg_registrations(
                    argsd,
                    i as int,
                ),
            decreases n - i,
        {
            assert(argsd[i as int] == self.arguments[i as int].deep_view());
            let ghost before = args.deep_view();
            match self.arguments[i].registration() {
                Some(a) => {
                    let ghost ad = a.deep_view();
                    args.push(a);
                    proof {
                        assert(args.deep_view() =~= before.push(ad));
                        assert(spec_arg_registrations(argsd, i as int) =~= seq![ad]
                            + spec_arg_registrations(argsd, i + 1));
                        assert(spec_arg_registrations(argsd, 0) =~= args.deep_view()
                            + spec_arg_registrations(argsd, i + 1));
                    }
                },
                None => {
                    proof {
                        assert(spec_arg_registrations(argsd, i as int) =~= spec_arg_registrations(
                            argsd,
                            i + 1,
                        ));
                    }
                },
            }
            i += 1;
        }
        proof {
            assert(spec_arg_registrations(argsd, n as int) =~= Seq::<
                SpecArgumentRegistration,
            >::empty());
            assert(args.deep_view() =~= spec_arg_registrations(argsd, 0));
        }
        let r = FieldRegistration {
            name: self.name.clone(),
            ty: self.ty.duplicate(),
            args,
            description: match &self.description {
                Some(s) => Some(s.clone()),
                None => None,
            },
            deprecated: match &self.deprecated {
                Some(d) => match d {
                    Some(s) => Some(Some(s.clone())),
                    None => Some(None),
                },
                None => None,
            },
        };
        proof {
            assert(r.deep_view() =~= spec_field_registration(self.deep_view()));
        }
        r
    }

    /// The field's arm in the synchronous dispatch, absent for an
    /// asynchronous field: the synchronous entry point rejects those
    /// with a distinct diagnostic, never silently coerces them.
    pub fn resolve_arm(&self) -> (r: Option<SyncFieldArm>)
        ensures
            self.deep_view().is_async ==> r is None,
            !self.deep_view().is_async ==> (r matches Some(a) && a.deep_view() == spec_sync_arm(
                self.deep_view(),
            )),
    {
        if self.is_async {
            return None;
        }
        let arm = SyncFieldArm {
            name: self.name.clone(),
            method: self.method.clone(),
            args: arg_sources(&self.arguments),
        };
        proof {
            assert(arm.deep_view() =~= spec_sync_arm(self.deep_view()));
        }
        Some(arm)
    }

    /// The field's arm in the asynchronous dispatch: always a suspended
    /// computation, wrapping the immediate result of a synchronous
    /// method into a ready one.
    pub fn resolve_async_arm(&self) -> (r: AsyncFieldArm)
        ensures
            r.deep_view() == spec_async_arm(self.deep_view()),
    {
        let arm = AsyncFieldArm {
            name: self.name.clone(),
            method: self.method.clone(),
            args: arg_sources(&self.arguments),
            wrap_ready: !self.is_async,
        };
        proof {
            assert(arm.deep_view() =~= spec_async_arm(self.deep_view()));
        }
        arm
    }
}

/// The function a downcast arm calls.
#[derive(Clone, Debug, PartialEq, Eq)]
pub enum DowncastFnRef {
    /// A capability method of the interface.
    TraitMethod(String),
    /// An externally supplied function reference.
    External(String),
}

/// Ghost mirror of [`DowncastFnRef`].
#[verifier::ext_equal]
pub enum SpecDowncastFnRef {
    TraitMethod(Seq<char>),
    External(Seq<char>),
}

impl DeepView for DowncastFnRef {
    type V = SpecDowncastFnRef;

    open spec fn deep_view(&self) -> SpecDowncastFnRef {
        match self {
            DowncastFnRef::TraitMethod(s) => SpecDowncastFnRef::TraitMethod(s.deep_view()),
            DowncastFnRef::External(s) => SpecDowncastFnRef::External(s.deep_view()),
        }
    }
}

/// One downcast invocation: the function, called with the polymorphic
/// instance and — when the strategy takes one — the resolution context.
#[derive(Clone, Debug, PartialEq, Eq)]
pub struct DowncastCall {
    pub fn_ref: DowncastFnRef,
    pub pass_context: bool,
}

/// Ghost mirror of [`DowncastCall`].
#[verifier::ext_equal]
pub struct SpecDowncastCall {
    pub fn_ref: SpecDowncastFnRef,
    pub pass_context: bool,
}

impl DeepView for DowncastCall {
    type V = SpecDowncastCall;

    open spec fn deep_view(&self) -> SpecDowncastCall {
        SpecDowncastCall { fn_ref: self.fn_ref.deep_view(), pass_context: self.pass_context }
    }
}

/// The invocation of one chosen downcast strategy: a method is called
/// with the context exactly when it declares a context parameter; an
/// external function always receives the context.
pub open spec fn spec_downcast_call(d: SpecImplementerDowncastDefinition) -> SpecDowncastCall {
    match d {
        SpecImplementerDowncastDefinition::Method { name, with_context } => SpecDowncastCall {
            fn_ref: SpecDowncastFnRef::TraitMethod(name),
            pass_context: with_context,
        },
        SpecImplementerDowncastDefinition::External { path } => SpecDowncastCall {
            fn_ref: SpecDowncastFnRef::External(path),
            pass_context: true,
        },
    }
}

/// One implementer-specific narrowing arm of the schema boundary.
#[derive(Clone, Debug, PartialEq, Eq)]
pub struct CustomNarrowArm {
    /// The implementer type checked against.
    pub ty: String,
    pub call: DowncastCall,
    /// Whether the narrowed result is wrapped into a ready suspension
    /// (the asynchronous boundary always suspends).
    pub wrap_ready: bool,
}

/// Ghost mirror of [`CustomNarrowArm`].
#[verifier::ext_equal]
pub struct SpecCustomNarrowArm {
    pub ty: Seq<char>,
    pub call: SpecDowncastCall,
    pub wrap_ready: bool,
}

impl DeepView for CustomNarrowArm {
    type V = SpecCustomNarrowArm;

    open spec fn deep_view(&self) -> SpecCustomNarrowArm {
        SpecCustomNarrowArm {
            ty: self.ty.deep_view(),
            call: self.call.deep_view(),
            wrap_ready: self.wrap_ready,
        }
    }
}

/// The narrowing arm of one implementer, absent where it has no
/// strategy of its own.
pub open spec fn spec_narrow_arm(
    im: SpecImplementerDefinition,
    wrap_ready: bool,
) -> Option<SpecCustomNarrowArm> {
    match im.downcast {
        Some(d) => Some(
            SpecCustomNarrowArm { ty: im.ty, call: spec_downcast_call(d), wrap_ready },
        ),
        None => None,
    }
}

/// The narrowing arms of the implementer list: those with a strategy,
/// in implementer-list order — first match wins at the boundary.
pub open spec fn spec_narrow_arms(
    implers: Seq<SpecImplementerDefinition>,
    i: int,
    wrap_ready: bool,
) -> Seq<SpecCustomNarrowArm>
    decreases implers.len() - i,
{
    if i < 0 || i >= implers.len() {
        Seq::empty()
    } else {
        match spec_narrow_arm(implers[i], wrap_ready) {
            Some(a) => seq![a] + spec_narrow_arms(implers, i + 1, wrap_ready),
            None => spec_narrow_arms(implers, i + 1, wrap_ready),
        }
    }
}

impl ImplementerDefinition {
    /// The invocation of this implementer's downcast strategy, if any.
    pub fn downcast_call(&self) -> (r: Option<DowncastCall>)
        ensures
            match self.deep_view().downcast {
                Some(d) => (r matches Some(c) && c.deep_view() == spec_downcast_call(d)),
                None => r is None,
            },
    {
        match &self.downcast {
            Some(crate::definition::ImplementerDowncastDefinition::Method { name, with_context }) =>
                Some(
                DowncastCall {
                    fn_ref: DowncastFnRef::TraitMethod(name.clone()),
                    pass_context: *with_context,
                },
            ),
            Some(crate::definition::ImplementerDowncastDefinition::External { path }) => Some(
                DowncastCall { fn_ref: DowncastFnRef::External(path.clone()), pass_context: true },
            ),
            None => None,
        }
    }

    /// This implementer's narrowing arm, if it has a strategy.
    pub fn narrow_arm(&self, wrap_ready: bool) -> (r: Option<CustomNarrowArm>)
        ensures
            r.deep_view() == spec_narrow_arm(self.deep_view(), wrap_ready),
    {
        match self.downcast_call() {
            Some(call) => {
                let arm = CustomNarrowArm { ty: self.ty.clone(), call, wrap_ready };
                proof {
                    assert(Some(arm).deep_view() =~= spec_narrow_arm(
                        self.deep_view(),
                        wrap_ready,
                    ));
                }
                Some(arm)
            },
            None => None,
        }
    }
}

/// Builds the narrowing arms of a whole implementer list.
pub fn narrow_arms(implers: &Vec<ImplementerDefinition>, wrap_ready: bool) -> (r: Vec<
    CustomNarrowArm,
>)
    ensures
        r.deep_view() =~= spec_narrow_arms(implers.deep_view(), 0, wrap_ready),
{
    let ghost impd = implers.deep_view();
    let n = implers.len();
    let mut r: Vec<CustomNarrowArm> = Vec::new();
    let mut i: usize = 0;
    proof {
        assert(r.deep_view() =~= Seq::<SpecCustomNarrowArm>::empty());
    }
    while i < n
        invariant
            n == implers.len(),
            impd == implers.deep_view(),
            i <= n,
            spec_narrow_arms(impd, 0, wrap_ready) =~= r.deep_view() + spec_narrow_arms(
                impd,
                i as int,
                wrap_ready,
            ),
        decreases n - i,
    {
        assert(impd[i as int] == implers[i as int].deep_view());
        let ghost before = r.deep_view();
        match implers[i].narrow_arm(wrap_ready) {
            Some(a) => {
                let ghost ad = a.deep_view();
                r.push(a);
                proof {
                    assert(r.deep_view() =~= before.push(ad));
                    assert(spec_narrow_arms(impd, i as int, wrap_ready) =~= seq![ad]
                        + spec_narrow_arms(impd, i + 1, wrap_ready));
                    assert(spec_narrow_arms(impd, 0, wrap_ready) =~= r.deep_view()
                        + spec_narrow_arms(impd, i + 1, wrap_ready));
                }
            },
            None => {
                proof {
                    assert(spec_narrow_arms(impd, i as int, wrap_ready) =~= spec_narrow_arms(
                        impd,
                        i + 1,
                        wrap_ready,
                    ));
                }
            },
        }
        i += 1;
    }
    proof {
        assert(spec_narrow_arms(impd, n as int, wrap_ready) =~= Seq::<
            SpecCustomNarrowArm,
        >::empty());
        assert(r.deep_view() =~= spec_narrow_arms(impd, 0, wrap_ready));
    }
    r
}

/// One variant of the emitted tagged union, standing for one
/// implementer.
#[derive(Clone, Debug, PartialEq, Eq)]
pub struct EnumVariant {
    pub ident: String,
    pub ty: String,
}

/// Ghost mirror of [`EnumVariant`].
#[verifier::ext_equal]
pub struct SpecEnumVariant {
    pub ident: Seq<char>,
    pub ty: Seq<char>,
}

impl DeepView for EnumVariant {
    type V = SpecEnumVariant;

    open spec fn deep_view(&self) -> SpecEnumVariant {
        SpecEnumVariant { ident: self.ident.deep_view(), ty: self.ty.deep_view() }
    }
}

/// The variants standing for the implementer types, in order, under
/// their position-derived identifiers.
pub open spec fn spec_variant_arms(variants: Seq<Seq<char>>) -> Seq<SpecEnumVariant> {
    Seq::new(
        variants.len(),
        |i: int| SpecEnumVariant { ident: spec_variant_ident(i as nat), ty: variants[i] },
    )
}

/// Builds the variant list of the tagged union.
pub fn variant_arms(variants: &Vec<String>) -> (r: Vec<EnumVariant>)
    ensures
        r.deep_view() =~= spec_variant_arms(variants.deep_view()),
{
    let n = variants.len();
    let mut r: Vec<EnumVariant> = Vec::new();
    let mut i: usize = 0;
    while i < n
        invariant
            n == variants.len(),
            i <= n,
            r.deep_view() =~= spec_variant_arms(variants.deep_view()).subrange(0, i as int),
        decreases n - i,
    {
        let ghost before = r.deep_view();
        let v = EnumVariant { ident: variant_ident(i), ty: variants[i].clone() };
        let ghost vd = v.deep_view();
        r.push(v);
        proof {
            assert(variants.deep_view()[i as int] == variants[i as int].deep_view());
            assert(vd =~= spec_variant_arms(variants.deep_view())[i as int]);
            assert(r.deep_view() =~= before.push(vd));
            assert(r.deep_view() =~= spec_variant_arms(variants.deep_view()).subrange(
                0,
                i + 1 as int,
            ));
        }
        i += 1;
    }
    proof {
        assert(r.deep_view() =~= spec_variant_arms(variants.deep_view()));
    }
    r
}

/// The backend's structural narrowing at the schema boundary: the
/// tagged union matches on its active variant; the dynamic handle
/// forwards to the live object.
#[derive(Debug)]
pub enum StructuralNarrow {
    EnumMatch(Vec<EnumVariant>),
    DynForward,
}

/// Ghost mirror of [`StructuralNarrow`].
#[verifier::ext_equal]
pub enum SpecStructuralNarrow {
    EnumMatch(Seq<SpecEnumVariant>),
    DynForward,
}

impl DeepView for StructuralNarrow {
    type V = SpecStructuralNarrow;

    open spec fn deep_view(&self) -> SpecStructuralNarrow {
        match self {
            StructuralNarrow::EnumMatch(vs) => SpecStructuralNarrow::EnumMatch(vs.deep_view()),
            StructuralNarrow::DynForward => SpecStructuralNarrow::DynForward,
        }
    }
}

/// The structural narrowing of the chosen backend.
pub open spec fn spec_structural(r: SpecRepresentation) -> SpecStructuralNarrow {
    match r {
        SpecRepresentation::Enum(e) => SpecStructuralNarrow::EnumMatch(
            spec_variant_arms(e.variants),
        ),
        SpecRepresentation::TraitObject(_) => SpecStructuralNarrow::DynForward,
    }
}

/// Builds the structural narrowing of the chosen backend.
pub fn structural_narrow(r: &Representation) -> (p: StructuralNarrow)
    ensures
        p.deep_view() == spec_structural(r.deep_view()),
{
    match r {
        Representation::Enum(e) => {
            let p = StructuralNarrow::EnumMatch(variant_arms(&e.variants));
            proof {
                assert(p.deep_view() =~= spec_structural(r.deep_view()));
            }
            p
        },
        Representation::TraitObject(_) => StructuralNarrow::DynForward,
    }
}

/// The field registrations, in declared order.
pub open spec fn spec_field_regs(fields: Seq<SpecInterfaceFieldDefinition>) -> Seq<
    SpecFieldRegistration,
> {
    Seq::new(fields.len(), |i: int| spec_field_registration(fields[i]))
}

/// The implementer types, in declaration order.
pub open spec fn spec_impler_ty_list(implers: Seq<SpecImplementerDefinition>) -> Seq<Seq<char>> {
    Seq::new(implers.len(), |i: int| implers[i].ty)
}

/// The type-metadata registration artifact.
#[derive(Debug)]
pub struct TypeMetadataPlan {
    pub name: String,
    pub description: Option<String>,
    /// Every implementer type, registered before any field metadata so
    /// forward references resolve; listed in a deterministic sorted
    /// order.
    pub implementer_registrations: Vec<String>,
    /// Field registrations, in declared order.
    pub field_registrations: Vec<FieldRegistration>,
}

/// The type-metadata contract: the exposed name and description, every
/// implementer registered (same multiset, sorted), and the fields in
/// declared order.
pub open spec fn metadata_plan_ok(p: TypeMetadataPlan, d: SpecDefinition) -> bool {
    &&& p.name.deep_view() == d.name
    &&& p.description.deep_view() == d.description
    &&& p.implementer_registrations.deep_view().to_multiset() == spec_impler_ty_list(
        d.implementers,
    ).to_multiset()
    &&& lex_sorted(p.implementer_registrations.deep_view())
    &&& p.field_registrations.deep_view() == spec_field_regs(d.fields)
}

/// The synchronous field-resolution artifact: dispatch by field name
/// over the synchronous fields, a distinct rejection for each
/// asynchronous field, a fatal fallback for unknown names, and the
/// narrowing arms of the boundary.
#[derive(Debug)]
pub struct SyncValuePlan {
    /// The context type; the unit context when absent.
    pub context_ty: Option<String>,
    /// Arms of the synchronous fields, in declared order.
    pub sync_arms: Vec<SyncFieldArm>,
    /// Names of the asynchronous fields, in declared order: the
    /// synchronous entry point rejects them with a distinct diagnostic.
    pub async_rejects: Vec<String>,
    /// Implementer-specific type-name checks, in implementer order.
    pub type_name_checks: Vec<CustomNarrowArm>,
    /// Implementer-specific narrowing arms, in implementer order.
    pub narrow_arms: Vec<CustomNarrowArm>,
    /// The backend's structural narrowing, tried after the custom arms.
    pub structural: StructuralNarrow,
}

/// The arms of the synchronous fields, in declared order.
pub open spec fn spec_sync_arms(fields: Seq<SpecInterfaceFieldDefinition>, i: int) -> Seq<
    SpecSyncFieldArm,
>
    decreases fields.len() - i,
{
    if i < 0 || i >= fields.len() {
        Seq::empty()
    } else if fields[i].is_async {
        spec_sync_arms(fields, i + 1)
    } else {
        seq![spec_sync_arm(fields[i])] + spec_sync_arms(fields, i + 1)
    }
}

/// The names of the asynchronous fields, in declared order.
pub open spec fn spec_async_reject_names(fields: Seq<SpecInterfaceFieldDefinition>, i: int) -> Seq<
    Seq<char>,
>
    decreases fields.len() - i,
{
    if i < 0 || i >= fields.len() {
        Seq::empty()
    } else if fields[i].is_async {
        seq![fields[i].name] + spec_async_reject_names(fields, i + 1)
    } else {
        spec_async_reject_names(fields, i + 1)
    }
}

/// The synchronous-resolution contract.
pub open spec fn sync_value_plan_ok(p: SyncValuePlan, d: SpecDefinition) -> bool {
    &&& p.context_ty.deep_view() == d.context
    &&& p.sync_arms.deep_view() == spec_sync_arms(d.fields, 0)
    &&& p.async_rejects.deep_view() == spec_async_reject_names(d.fields, 0)
    &&& p.type_name_checks.deep_view() == spec_narrow_arms(d.implementers, 0, false)
    &&& p.narrow_arms.deep_view() == spec_narrow_arms(d.implementers, 0, false)
    &&& p.structural.deep_view() == spec_structural(d.repr)
}

/// The asynchronous field-resolution artifact: an arm for every field,
/// each producing a suspended computation.
#[derive(Debug)]
pub struct AsyncValuePlan {
    /// The context type; the unit context when absent.
    pub context_ty: Option<String>,
    /// One arm per field, in declared order.
    pub arms: Vec<AsyncFieldArm>,
    /// The value must stay shareable while a resolution is suspended.
    pub self_sync: bool,
    /// A generic scalar must be sendable across workers too.
    pub scalar_send_sync: bool,
    /// Implementer-specific narrowing arms, each wrapped ready.
    pub narrow_arms: Vec<CustomNarrowArm>,
    pub structural: StructuralNarrow,
}

/// One arm per field, in declared order.
pub open spec fn spec_async_arms(fields: Seq<SpecInterfaceFieldDefinition>) -> Seq<
    SpecAsyncFieldArm,
> {
    Seq::new(fields.len(), |i: int| spec_async_arm(fields[i]))
}

/// The asynchronous-resolution contract.
pub open spec fn async_value_plan_ok(p: AsyncValuePlan, d: SpecDefinition) -> bool {
    &&& p.context_ty.deep_view() == d.context
    &&& p.arms.deep_view() == spec_async_arms(d.fields)
    &&& p.self_sync
    &&& p.scalar_send_sync == crate::definition::spec_scalar_is_generic(d.scalar)
    &&& p.narrow_arms.deep_view() == spec_narrow_arms(d.implementers, 0, true)
    &&& p.structural.deep_view() == spec_structural(d.repr)
}

/// The interface-conformance artifact: every implementer marked, and —
/// with more than one — an assertion that they are pairwise distinct
/// types.
#[derive(Debug)]
pub struct ConformancePlan {
    pub assert_implementers_unique: bool,
    pub implementer_marks: Vec<String>,
}

/// The conformance contract.
pub open spec fn conformance_plan_ok(p: ConformancePlan, d: SpecDefinition) -> bool {
    &&& p.assert_implementers_unique == (d.implementers.len() > 1)
    &&& p.implementer_marks.deep_view() == spec_impler_ty_list(d.implementers)
}

/// The output-type marks of one field: every exposed argument type must
/// be an input type, the result type an output type.
#[derive(Debug)]
pub struct FieldMark {
    pub arg_tys: Vec<TyExpr>,
    pub result_ty: TyExpr,
}

/// Ghost mirror of [`FieldMark`].
#[verifier::ext_equal]
pub struct SpecFieldMark {
    pub arg_tys: Seq<SpecTyExpr>,
    pub result_ty: SpecTyExpr,
}

impl DeepView for FieldMark {
    type V = SpecFieldMark;

    open spec fn deep_view(&self) -> SpecFieldMark {
        SpecFieldMark { arg_tys: self.arg_tys.deep_view(), result_ty: self.result_ty.deep_view() }
    }
}

/// The declared types of the exposed arguments, in order.
pub open spec fn spec_regular_arg_tys(args: Seq<SpecMethodArgument>, i: int) -> Seq<SpecTyExpr>
    decreases args.len() - i,
{
    if i < 0 || i >= args.len() {
        Seq::empty()
    } else {
        match args[i] {
            SpecMethodArgument::Regular(a) => seq![a.ty] + spec_regular_arg_tys(args, i + 1),
            _ => spec_regular_arg_tys(args, i + 1),
        }
    }
}

pub open spec fn spec_field_mark(f: SpecInterfaceFieldDefinition) -> SpecFieldMark {
    SpecFieldMark { arg_tys: spec_regular_arg_tys(f.arguments, 0), result_ty: f.ty }
}

pub open spec fn spec_field_marks(fields: Seq<SpecInterfaceFieldDefinition>) -> Seq<
    SpecFieldMark,
> {
    Seq::new(fields.len(), |i: int| spec_field_mark(fields[i]))
}

/// The output-type marker artifact: a compile-time proof obligation on
/// every field's argument and result types and on every implementer.
#[derive(Debug)]
pub struct OutputTypePlan {
    pub field_marks: Vec<FieldMark>,
    pub implementer_marks: Vec<String>,
}

/// The output-type contract.
pub open spec fn output_plan_ok(p: OutputTypePlan, d: SpecDefinition) -> bool {
    &&& p.field_marks.deep_view() == spec_field_marks(d.fields)
    &&& p.implementer_marks.deep_view() == spec_impler_ty_list(d.implementers)
}

/// One dispatched method of the tagged union's conformance block.
#[derive(Debug)]
pub struct MethodDispatchPlan {
    pub method: String,
    pub is_async: bool,
    /// The forwarded argument names, in order.
    pub arg_names: Vec<String>,
    /// The forwarded call is awaited exactly when the method is
    /// asynchronous.
    pub awaited: bool,
    /// One forwarding arm per variant, in variant order.
    pub arms: Vec<EnumVariant>,
    /// The extra where-clause predicates the async rewrite adds to this
    /// method: every non-const generic parameter outlives the dispatch.
    pub async_trait_predicates: Vec<String>,
}

/// The where-clause predicates the async rewrite adds: one per
/// non-const generic parameter.
pub open spec fn spec_async_trait_preds(params: Seq<SpecGenericParam>, i: int) -> Seq<Seq<char>>
    decreases params.len() - i,
{
    if i < 0 || i >= params.len() {
        Seq::empty()
    } else {
        match params[i] {
            SpecGenericParam::ConstParam { .. } => spec_async_trait_preds(params, i + 1),
            _ => seq![spec_param_ident(params[i]) + ": 'async_trait"@] + spec_async_trait_preds(
                params,
                i + 1,
            ),
        }
    }
}

/// The argument names of one signature, in order.
pub open spec fn spec_sig_arg_names(s: SpecSigModel) -> Seq<Seq<char>> {
    Seq::new(s.params.len(), |i: int| s.params[i].name)
}

/// The dispatch of one method over the variants.
pub open spec fn spec_method_dispatch_ok(
    p: MethodDispatchPlan,
    s: SpecSigModel,
    variants: Seq<Seq<char>>,
    trait_params: Seq<SpecGenericParam>,
) -> bool {
    &&& p.method.deep_view() == s.ident
    &&& p.is_async == s.is_async
    &&& p.arg_names.deep_view() == spec_sig_arg_names(s)
    &&& p.awaited == s.is_async
    &&& p.arms.deep_view() == spec_variant_arms(variants)
    &&& p.async_trait_predicates.deep_view() == (if s.is_async {
        spec_async_trait_preds(trait_params, 0)
    } else {
        Seq::<Seq<char>>::empty()
    })
}

/// The tagged union's own definition artifact.
#[derive(Debug)]
pub struct EnumDefPlan {
    pub ident: String,
    pub visibility: String,
    /// The trait the synthesized type stands for, named in its
    /// documentation.
    pub trait_ident: String,
    pub variants: Vec<EnumVariant>,
}

pub open spec fn enum_def_plan_ok(p: EnumDefPlan, e: SpecEnumType) -> bool {
    &&& p.ident.deep_view() == e.ident
    &&& p.visibility.deep_view() == e.visibility
    &&& p.trait_ident.deep_view() == e.trait_ident
    &&& p.variants.deep_view() == spec_variant_arms(e.variants)
}

/// The conformance-by-dispatch artifact of the tagged union: associated
/// types and constants forwarded from the first variant (all
/// implementers are required to agree — a documented constraint the
/// builder does not re-validate), and every method forwarded by
/// matching on the active variant.
#[derive(Debug)]
pub struct EnumTraitImplPlan {
    pub enum_ident: String,
    pub trait_ident: String,
    /// The variant type associated items are forwarded from.
    pub first_variant: String,
    pub assoc_types: Vec<AssocTypeModel>,
    pub assoc_consts: Vec<AssocConstModel>,
    pub methods: Vec<MethodDispatchPlan>,
    /// Whether the async rewrite wraps the block: exactly when some
    /// method is asynchronous.
    pub use_async_trait: bool,
}

pub open spec fn enum_trait_impl_plan_ok(p: EnumTraitImplPlan, e: SpecEnumType) -> bool {
    &&& p.enum_ident.deep_view() == e.ident
    &&& p.trait_ident.deep_view() == e.trait_ident
    &&& e.variants.len() > 0 && p.first_variant.deep_view() == e.variants[0]
    &&& p.assoc_types.deep_view() == e.trait_types
    &&& p.assoc_consts.deep_view() == e.trait_consts
    &&& p.methods@.len() == e.trait_methods.len()
    &&& forall|i: int|
        0 <= i < e.trait_methods.len() ==> spec_method_dispatch_ok(
            #[trigger] p.methods@[i],
            e.trait_methods[i],
            e.variants,
            e.trait_generics.params,
        )
    &&& p.use_async_trait == (exists|i: int|
        0 <= i < e.trait_methods.len() && (#[trigger] e.trait_methods[i]).is_async)
}

/// The dynamic-dispatch alias artifact: the alias over the trait object
/// bound to the context type, shareable and transferable across
/// concurrent consumers.
#[derive(Debug)]
pub struct DynAliasPlan {
    pub ident: String,
    pub visibility: String,
    pub trait_ident: String,
    /// The trait's parameters for the alias's left side: bounds moved
    /// to the where-clause, defaults kept.
    pub params_left: Vec<GenericParam>,
    /// The parameters for the right side: defaults removed too.
    pub params_right: Vec<GenericParam>,
    /// The where-clause predicates of the alias.
    pub where_predicates: Vec<String>,
    /// The context type baked into the handle; the unit context when
    /// absent.
    pub context_ty: Option<String>,
    /// The handle stays shareable and transferable.
    pub send_sync: bool,
}

pub open spec fn dyn_alias_plan_ok(p: DynAliasPlan, o: SpecTraitObjectType) -> bool {
    &&& p.ident.deep_view() == o.ident
    &&& p.visibility.deep_view() == o.visibility
    &&& p.trait_ident.deep_view() == o.trait_ident
    &&& p.params_left.deep_view() == spec_move_bounds(o.trait_generics).params
    &&& p.params_right.deep_view() == spec_remove_defaults(
        spec_move_bounds(o.trait_generics),
    ).params
    &&& p.where_predicates.deep_view() == spec_move_bounds(o.trait_generics).where_predicates
    &&& p.context_ty.deep_view() == o.context
    &&& p.send_sync
}

/// The concrete value representation artifact, by backend.
#[derive(Debug)]
pub enum ReprPlan {
    Enum { def: EnumDefPlan, from_conversions: Vec<EnumVariant>, trait_impl: EnumTraitImplPlan },
    Dyn(DynAliasPlan),
}

pub open spec fn repr_plan_ok(p: ReprPlan, r: SpecRepresentation) -> bool {
    match (p, r) {
        (ReprPlan::Enum { def, from_conversions, trait_impl }, SpecRepresentation::Enum(e)) => {
            &&& enum_def_plan_ok(def, e)
            &&& from_conversions.deep_view() == spec_variant_arms(e.variants)
            &&& enum_trait_impl_plan_ok(trait_impl, e)
        },
        (ReprPlan::Dyn(alias), SpecRepresentation::TraitObject(o)) => dyn_alias_plan_ok(alias, o),
        _ => false,
    }
}

/// The six artifact kinds of one interface, always emitted together,
/// never partially.
#[derive(Debug)]
pub struct Artifacts {
    pub repr: ReprPlan,
    pub conformance: ConformancePlan,
    pub output: OutputTypePlan,
    pub metadata: TypeMetadataPlan,
    pub sync_value: SyncValuePlan,
    pub async_value: AsyncValuePlan,
}

/// Builds the where-clause predicates of the async rewrite.
fn async_trait_preds(params: &Vec<GenericParam>) -> (r: Vec<String>)
    ensures
        r.deep_view() =~= spec_async_trait_preds(params.deep_view(), 0),
{
    let ghost pd = params.deep_view();
    let n = params.len();
    let mut r: Vec<String> = Vec::new();
    let mut i: usize = 0;
    proof {
        assert(r.deep_view() =~= Seq::<Seq<char>>::empty());
    }
    while i < n
        invariant
            n == params.len(),
            pd == params.deep_view(),
            i <= n,
            spec_async_trait_preds(pd, 0) =~= r.deep_view() + spec_async_trait_preds(pd, i as int),
        decreases n - i,
    {
        assert(pd[i as int] == params[i as int].deep_view());
        let ghost before = r.deep_view();
        match &params[i] {
            GenericParam::ConstParam { .. } => {
                proof {
                    assert(spec_async_trait_preds(pd, i as int) =~= spec_async_trait_preds(
                        pd,
                        i + 1,
                    ));
                }
            },
            GenericParam::Lifetime { ident, .. } => {
                let pred = str_concat(ident.as_str(), ": 'async_trait");
                r.push(pred);
                proof {
                    assert(r.deep_view() =~= before.push(
                        spec_param_ident(pd[i as int]) + ": 'async_trait"@,
                    ));
                    assert(spec_async_trait_preds(pd, i as int) =~= seq![
                        spec_param_ident(pd[i as int]) + ": 'async_trait"@,
                    ] + spec_async_trait_preds(pd, i + 1));
                    assert(spec_async_trait_preds(pd, 0) =~= r.deep_view()
                        + spec_async_trait_preds(pd, i + 1));
                }
            },
            GenericParam::TyParam { ident, .. } => {
                let pred = str_concat(ident.as_str(), ": 'async_trait");
                r.push(pred);
                proof {
                    assert(r.deep_view() =~= before.push(
                        spec_param_ident(pd[i as int]) + ": 'async_trait"@,
                    ));
                    assert(spec_async_trait_preds(pd, i as int) =~= seq![
                        spec_param_ident(pd[i as int]) + ": 'async_trait"@,
                    ] + spec_async_trait_preds(pd, i + 1));
                    assert(spec_async_trait_preds(pd, 0) =~= r.deep_view()
                        + spec_async_trait_preds(pd, i + 1));
                }
            },
        }
        i += 1;
    }
    proof {
        assert(spec_async_trait_preds(pd, n as int) =~= Seq::<Seq<char>>::empty());
        assert(r.deep_view() =~= spec_async_trait_preds(pd, 0));
    }
    r
}

impl EnumType {
    /// The tagged union's definition artifact.
    pub fn type_definition_plan(&self) -> (r: EnumDefPlan)
        ensures
            enum_def_plan_ok(r, self.deep_view()),
    {
        EnumDefPlan {
            ident: self.ident.clone(),
            visibility: self.visibility.clone(),
            trait_ident: self.trait_ident.clone(),
            variants: variant_arms(&self.variants),
        }
    }

    /// The conversions into the tagged union, one per variant.
    pub fn from_conversion_plans(&self) -> (r: Vec<EnumVariant>)
        ensures
            r.deep_view() == spec_variant_arms(self.deep_view().variants),
    {
        variant_arms(&self.variants)
    }

    /// The conformance-by-dispatch artifact: every capability method
    /// forwarded by matching on the active variant, awaiting the
    /// forwarded call exactly where the method is asynchronous.
    #[verifier::loop_isolation(false)]
    pub fn impl_trait_plan(&self) -> (r: EnumTraitImplPlan)
        requires
            self.deep_view().variants.len() > 0,
        ensures
            enum_trait_impl_plan_ok(r, self.deep_view()),
    {
        let ghost sd = self.deep_view();
        let nm = self.trait_methods.len();
        let mut methods: Vec<MethodDispatchPlan> = Vec::new();
        let mut any_async: bool = false;
        let mut i: usize = 0;
        while i < nm
            invariant
                nm == self.trait_methods.len(),
                i <= nm,
                methods@.len() == i,
                forall|j: int|
                    0 <= j < i ==> spec_method_dispatch_ok(
                        #[trigger] methods@[j],
                        sd.trait_methods[j],
                        sd.variants,
                        sd.trait_generics.params,
                    ),
                any_async == (exists|j: int|
                    0 <= j < i && (#[trigger] sd.trait_methods[j]).is_async),
            decreases nm - i,
        {
            assert(sd.trait_methods[i as int] == self.trait_methods[i as int].deep_view());
            let s = &self.trait_methods[i];
            let np = s.params.len();
            let mut arg_names: Vec<String> = Vec::new();
            let mut j: usize = 0;
            while j < np
                invariant
                    np == s.params.len(),
                    j <= np,
                    arg_names.deep_view() =~= spec_sig_arg_names(s.deep_view()).subrange(
                        0,
                        j as int,
                    ),
                decreases np - j,
            {
                let ghost before = arg_names.deep_view();
                arg_names.push(s.params[j].name.clone());
                proof {
                    assert(s.deep_view().params[j as int] == s.params[j as int].deep_view());
                    assert(arg_names.deep_view() =~= before.push(
                        s.deep_view().params[j as int].name,
                    ));
                    assert(arg_names.deep_view() =~= spec_sig_arg_names(s.deep_view()).subrange(
                        0,
                        j + 1 as int,
                    ));
                }
                j += 1;
            }
            proof {
                assert(arg_names.deep_view() =~= spec_sig_arg_names(s.deep_view()));
            }
            let preds: Vec<String> = if s.is_async {
                async_trait_preds(&self.trait_generics.params)
            } else {
                Vec::new()
            };
            proof {
                if !s.is_async {
                    assert(preds.deep_view() =~= Seq::<Seq<char>>::empty());
                }
            }
            let plan = MethodDispatchPlan {
                method: s.ident.clone(),
                is_async: s.is_async,
                arg_names,
                awaited: s.is_async,
                arms: variant_arms(&self.variants),
                async_trait_predicates: preds,
            };
            let is_async = s.is_async;
            methods.push(plan);
            if is_async {
                any_async = true;
            }
            i += 1;
        }
        let r = EnumTraitImplPlan {
            enum_ident: self.ident.clone(),
            trait_ident: self.trait_ident.clone(),
            first_variant: self.variants[0].clone(),
            assoc_types: copy_assoc_types(&self.trait_types),
            assoc_consts: copy_assoc_consts(&self.trait_consts),
            methods,
            use_async_trait: any_async,
        };
        r
    }
}

impl TraitObjectType {
    /// The dynamic-dispatch alias artifact.
    pub fn alias_plan(&self) -> (r: DynAliasPlan)
        ensures
            dyn_alias_plan_ok(r, self.deep_view()),
    {
        let mut left = self.trait_generics.duplicate();
        left.move_bounds_to_where_clause();
        let mut right = left.duplicate();
        right.remove_defaults();
        DynAliasPlan {
            ident: self.ident.clone(),
            visibility: self.visibility.clone(),
            trait_ident: self.trait_ident.clone(),
            params_left: left.params,
            params_right: right.params,
            where_predicates: left.where_predicates,
            context_ty: match &self.context {
                Some(c) => Some(c.clone()),
                None => None,
            },
            send_sync: true,
        }
    }
}

/// Builds the implementer type list, in declaration order.
fn impler_ty_list(implers: &Vec<ImplementerDefinition>) -> (r: Vec<String>)
    ensures
        r.deep_view() =~= spec_impler_ty_list(implers.deep_view()),
{
    let n = implers.len();
    let mut r: Vec<String> = Vec::new();
    let mut i: usize = 0;
    while i < n
        invariant
            n == implers.len(),
            i <= n,
            r.deep_view() =~= spec_impler_ty_list(implers.deep_view()).subrange(0, i as int),
        decreases n - i,
    {
        let ghost before = r.deep_view();
        r.push(implers[i].ty.clone());
        proof {
            assert(implers.deep_view()[i as int] == implers[i as int].deep_view());
            assert(r.deep_view() =~= before.push(implers.deep_view()[i as int].ty));
            assert(r.deep_view() =~= spec_impler_ty_list(implers.deep_view()).subrange(
                0,
                i + 1 as int,
            ));
        }
        i += 1;
    }
    proof {
        assert(r.deep_view() =~= spec_impler_ty_list(implers.deep_view()));
    }
    r
}

impl Definition {
    /// The representation artifact of the chosen backend.
    pub fn repr_plan(&self) -> (r: ReprPlan)
        requires
            self.deep_view().repr matches SpecRepresentation::Enum(e) ==> e.variants.len() > 0,
        ensures
            repr_plan_ok(r, self.deep_view().repr),
    {
        match &self.repr {
            Representation::Enum(e) => ReprPlan::Enum {
                def: e.type_definition_plan(),
                from_conversions: e.from_conversion_plans(),
                trait_impl: e.impl_trait_plan(),
            },
            Representation::TraitObject(o) => ReprPlan::Dyn(o.alias_plan()),
        }
    }

    /// The type-metadata registration artifact: every implementer
    /// registered, in sorted order, before the fields, which keep their
    /// declared order verbatim.
    #[verifier::loop_isolation(false)]
    pub fn type_metadata_plan(&self) -> (r: TypeMetadataPlan)
        ensures
            metadata_plan_ok(r, self.deep_view()),
    {
        let tys = impler_ty_list(&self.implementers);
        let sorted = sort_strings(&tys);
        let nf = self.fields.len();
        let mut regs: Vec<FieldRegistration> = Vec::new();
        let mut i: usize = 0;
        while i < nf
            invariant
                nf == self.fields.len(),
                i <= nf,
                regs.deep_view() =~= spec_field_regs(self.deep_view().fields).subrange(
                    0,
                    i as int,
                ),
            decreases nf - i,
        {
            let ghost before = regs.deep_view();
            let reg = self.fields[i].registration();
            let ghost regd = reg.deep_view();
            regs.push(reg);
            proof {
                assert(self.deep_view().fields[i as int] == self.fields[i as int].deep_view());
                assert(regs.deep_view() =~= before.push(regd));
                assert(regs.deep_view() =~= spec_field_regs(self.deep_view().fields).subrange(
                    0,
                    i + 1 as int,
                ));
            }
            i += 1;
        }
        proof {
            assert(regs.deep_view() =~= spec_field_regs(self.deep_view().fields));
        }
        TypeMetadataPlan {
            name: self.name.clone(),
            description: match &self.description {
                Some(s) => Some(s.clone()),
                None => None,
            },
            implementer_registrations: sorted,
            field_registrations: regs,
        }
    }

    /// The synchronous field-resolution artifact.
    #[verifier::loop_isolation(false)]
    pub fn sync_value_plan(&self) -> (r: SyncValuePlan)
        ensures
            sync_value_plan_ok(r, self.deep_view()),
    {
        let ghost fieldsd = self.deep_view().fields;
        let nf = self.fields.len();
        let mut sync_arms: Vec<SyncFieldArm> = Vec::new();
        let mut async_rejects: Vec<String> = Vec::new();
        let mut i: usize = 0;
        proof {
            assert(sync_arms.deep_view() =~= Seq::<SpecSyncFieldArm>::empty());
            assert(async_rejects.deep_view() =~= Seq::<Seq<char>>::empty());
        }
        while i < nf
            invariant
                nf == self.fields.len(),
                i <= nf,
                spec_sync_arms(fieldsd, 0) =~= sync_arms.deep_view() + spec_sync_arms(
                    fieldsd,
                    i as int,
                ),
                spec_async_reject_names(fieldsd, 0) =~= async_rejects.deep_view()
                    + spec_async_reject_names(fieldsd, i as int),
            decreases nf - i,
        {
            assert(fieldsd[i as int] == self.fields[i as int].deep_view());
            let ghost arms_before = sync_arms.deep_view();
            let ghost rejects_before = async_rejects.deep_view();
            match self.fields[i].resolve_arm() {
                Some(arm) => {
                    let ghost armd = arm.deep_view();
                    sync_arms.push(arm);
                    proof {
                        assert(sync_arms.deep_view() =~= arms_before.push(armd));
                        assert(spec_sync_arms(fieldsd, i as int) =~= seq![armd]
                            + spec_sync_arms(fieldsd, i + 1));
                        assert(spec_sync_arms(fieldsd, 0) =~= sync_arms.deep_view()
                            + spec_sync_arms(fieldsd, i + 1));
                        assert(spec_async_reject_names(fieldsd, i as int)
                            =~= spec_async_reject_names(fieldsd, i + 1));
                    }
                },
                None => {
                    async_rejects.push(self.fields[i].name.clone());
                    proof {
                        assert(async_rejects.deep_view() =~= rejects_before.push(
                            fieldsd[i as int].name,
                        ));
                        assert(spec_async_reject_names(fieldsd, i as int) =~= seq![
                            fieldsd[i as int].name,
                        ] + spec_async_reject_names(fieldsd, i + 1));
                        assert(spec_async_reject_names(fieldsd, 0) =~= async_rejects.deep_view()
                            + spec_async_reject_names(fieldsd, i + 1));
                        assert(spec_sync_arms(fieldsd, i as int) =~= spec_sync_arms(
                            fieldsd,
                            i + 1,
                        ));
                    }
                },
            }
            i += 1;
        }
        proof {
            assert(spec_sync_arms(fieldsd, nf as int) =~= Seq::<SpecSyncFieldArm>::empty());
            assert(spec_async_reject_names(fieldsd, nf as int) =~= Seq::<Seq<char>>::empty());
            assert(sync_arms.deep_view() =~= spec_sync_arms(fieldsd, 0));
            assert(async_rejects.deep_view() =~= spec_async_reject_names(fieldsd, 0));
        }
        SyncValuePlan {
            context_ty: match &self.context {
                Some(c) => Some(c.clone()),
                None => None,
            },
            sync_arms,
            async_rejects,
            type_name_checks: narrow_arms(&self.implementers, false),
            narrow_arms: narrow_arms(&self.implementers, false),
            structural: structural_narrow(&self.repr),
        }
    }

    /// The asynchronous field-resolution artifact: every path suspends,
    /// so an external executor can legally suspend and resume at any
    /// field boundary.
    #[verifier::loop_isolation(false)]
    pub fn async_value_plan(&self) -> (r: AsyncValuePlan)
        ensures
            async_value_plan_ok(r, self.deep_view()),
    {
        let ghost fieldsd = self.deep_view().fields;
        let nf = self.fields.len();
        let mut arms: Vec<AsyncFieldArm> = Vec::new();
        let mut i: usize = 0;
        while i < nf
            invariant
                nf == self.fields.len(),
                i <= nf,
                arms.deep_view() =~= spec_async_arms(fieldsd).subrange(0, i as int),
            decreases nf - i,
        {
            assert(fieldsd[i as int] == self.fields[i as int].deep_view());
            let ghost before = arms.deep_view();
            let arm = self.fields[i].resolve_async_arm();
            let ghost armd = arm.deep_view();
            arms.push(arm);
            proof {
                assert(arms.deep_view() =~= before.push(armd));
                assert(arms.deep_view() =~= spec_async_arms(fieldsd).subrange(0, i + 1 as int));
            }
            i += 1;
        }
        proof {
            assert(arms.deep_view() =~= spec_async_arms(fieldsd));
        }
        AsyncValuePlan {
            context_ty: match &self.context {
                Some(c) => Some(c.clone()),
                None => None,
            },
            arms,
            self_sync: true,
            scalar_send_sync: self.scalar.is_generic(),
            narrow_arms: narrow_arms(&self.implementers, true),
            structural: structural_narrow(&self.repr),
        }
    }

    /// The interface-conformance artifact.
    pub fn conformance_plan(&self) -> (r: ConformancePlan)
        ensures
            conformance_plan_ok(r, self.deep_view()),
    {
        ConformancePlan {
            assert_implementers_unique: self.implementers.len() > 1,
            implementer_marks: impler_ty_list(&self.implementers),
        }
    }

    /// The output-type marker artifact.
    #[verifier::loop_isolation(false)]
    pub fn output_type_plan(&self) -> (r: OutputTypePlan)
        ensures
            output_plan_ok(r, self.deep_view()),
    {
        let ghost fieldsd = self.deep_view().fields;
        let nf = self.fields.len();
        let mut marks: Vec<FieldMark> = Vec::new();
        let mut i: usize = 0;
        while i < nf
            invariant
                nf == self.fields.len(),
                i <= nf,
                marks.deep_view() =~= spec_field_marks(fieldsd).subrange(0, i as int),
            decreases nf - i,
        {
            assert(fieldsd[i as int] == self.fields[i as int].deep_view());
            let ghost before = marks.deep_view();
            let f = &self.fields[i];
            let ghost argsd = f.deep_view().arguments;
            let na = f.arguments.len();
            let mut arg_tys: Vec<TyExpr> = Vec::new();
            let mut j: usize = 0;
            proof {
                assert(arg_tys.deep_view() =~= Seq::<SpecTyExpr>::empty());
            }
            while j < na
                invariant
                    na == f.arguments.len(),
                    argsd == f.deep_view().arguments,
                    j <= na,
                    spec_regular_arg_tys(argsd, 0) =~= arg_tys.deep_view()
                        + spec_regular_arg_tys(argsd, j as int),
                decreases na - j,
            {
                assert(argsd[j as int] == f.arguments[j as int].deep_view());
                let ghost tys_before = arg_tys.deep_view();
                match &f.arguments[j] {
                    MethodArgument::Regular(a) => {
                        arg_tys.push(a.ty.duplicate());
                        proof {
                            assert(arg_tys.deep_view() =~= tys_before.push(
                                argsd[j as int]->Regular_0.ty,
                            ));
                            assert(spec_regular_arg_tys(argsd, j as int) =~= seq![
                                argsd[j as int]->Regular_0.ty,
                            ] + spec_regular_arg_tys(argsd, j + 1));
                            assert(spec_regular_arg_tys(argsd, 0) =~= arg_tys.deep_view()
                                + spec_regular_arg_tys(argsd, j + 1));
                        }
                    },
                    _ => {
                        proof {
                            assert(spec_regular_arg_tys(argsd, j as int) =~= spec_regular_arg_tys(
                                argsd,
                                j + 1,
                            ));
                        }
                    },
                }
                j += 1;
            }
            proof {
                assert(spec_regular_arg_tys(argsd, na as int) =~= Seq::<SpecTyExpr>::empty());
                assert(arg_tys.deep_view() =~= spec_regular_arg_tys(argsd, 0));
            }
            let mark = FieldMark { arg_tys, result_ty: f.ty.duplicate() };
            let ghost markd = mark.deep_view();
            marks.push(mark);
            proof {
                assert(markd =~= spec_field_mark(fieldsd[i as int]));
                assert(marks.deep_view() =~= before.push(markd));
                assert(marks.deep_view() =~= spec_field_marks(fieldsd).subrange(0, i + 1 as int));
            }
            i += 1;
        }
        proof {
            assert(marks.deep_view() =~= spec_field_marks(fieldsd));
        }
        OutputTypePlan { field_marks: marks, implementer_marks: impler_ty_list(&self.implementers) }
    }

    /// Emits the six artifact kinds of this interface, together.
    pub fn artifacts(&self) -> (r: Artifacts)
        requires
            self.deep_view().repr matches SpecRepresentation::Enum(e) ==> e.variants.len() > 0,
        ensures
            repr_plan_ok(r.repr, self.deep_view().repr),
            conformance_plan_ok(r.conformance, self.deep_view()),
            output_plan_ok(r.output, self.deep_view()),
            metadata_plan_ok(r.metadata, self.deep_view()),
            sync_value_plan_ok(r.sync_value, self.deep_view()),
            async_value_plan_ok(r.async_value, self.deep_view()),
    {
        Artifacts {
            repr: self.repr_plan(),
            conformance: self.conformance_plan(),
            output: self.output_type_plan(),
            metadata: self.type_metadata_plan(),
            sync_value: self.sync_value_plan(),
            async_value: self.async_value_plan(),
        }
    }
}

/// The first dispatch arm for a field name, if any.
pub open spec fn spec_first_sync_arm(
    arms: Seq<SpecSyncFieldArm>,
    name: Seq<char>,
    i: int,
) -> Option<int>
    decreases arms.len() - i,
{
    if i < 0 || i >= arms.len() {
        None
    } else if arms[i].name == name {
        Some(i)
    } else {
        spec_first_sync_arm(arms, name, i + 1)
    }
}

/// The first rejected name equal to a field name, if any.
pub open spec fn spec_first_name(names: Seq<Seq<char>>, name: Seq<char>, i: int) -> Option<int>
    decreases names.len() - i,
{
    if i < 0 || i >= names.len() {
        None
    } else if names[i] == name {
        Some(i)
    } else {
        spec_first_name(names, name, i + 1)
    }
}

/// What the synchronous dispatch does with one field name.
#[derive(Debug, PartialEq, Eq)]
pub enum SyncOutcome {
    /// Forward to the arm at this position.
    Dispatch(usize),
    /// The field is asynchronous: rejected with a distinct diagnostic.
    AsyncRejected,
    /// No such field: a fatal error naming the field and the exposed
    /// type — schema and implementation have drifted apart.
    NoField,
}

/// The synchronous dispatch decision for one field name.
pub open spec fn spec_sync_resolve(p: SyncValuePlan, name: Seq<char>) -> SyncOutcome {
    match spec_first_sync_arm(p.sync_arms.deep_view(), name, 0) {
        Some(k) => SyncOutcome::Dispatch(k as usize),
        None => match spec_first_name(p.async_rejects.deep_view(), name, 0) {
            Some(_) => SyncOutcome::AsyncRejected,
            None => SyncOutcome::NoField,
        },
    }
}

/// Resolves a field name against the synchronous dispatch plan: the
/// first arm with that name wins; an asynchronous field is rejected;
/// an unknown field is fatal.
#[verifier::loop_isolation(false)]
pub fn sync_resolve(p: &SyncValuePlan, field: &str) -> (r: SyncOutcome)
    ensures
        r == spec_sync_resolve(*p, field@),
{
    let ghost armsd = p.sync_arms.deep_view();
    let n = p.sync_arms.len();
    let mut i: usize = 0;
    while i < n
        invariant
            n == p.sync_arms.len(),
            i <= n,
            spec_first_sync_arm(armsd, field@, 0) == spec_first_sync_arm(armsd, field@, i as int),
        decreases n - i,
    {
        assert(armsd[i as int] == p.sync_arms[i as int].deep_view());
        if str_eq(p.sync_arms[i].name.as_str(), field) {
            return SyncOutcome::Dispatch(i);
        }
        i += 1;
    }
    let ghost namesd = p.async_rejects.deep_view();
    let nr = p.async_rejects.len();
    let mut k: usize = 0;
    while k < nr
        invariant
            nr == p.async_rejects.len(),
            k <= nr,
            spec_first_name(namesd, field@, 0) == spec_first_name(namesd, field@, k as int),
        decreases nr - k,
    {
        assert(namesd[k as int] == p.async_rejects[k as int].deep_view());
        if str_eq(p.async_rejects[k].as_str(), field) {
            return SyncOutcome::AsyncRejected;
        }
        k += 1;
    }
    SyncOutcome::NoField
}

/// The first asynchronous arm for a field name, if any.
pub open spec fn spec_first_async_arm(
    arms: Seq<SpecAsyncFieldArm>,
    name: Seq<char>,
    i: int,
) -> Option<int>
    decreases arms.len() - i,
{
    if i < 0 || i >= arms.len() {
        None
    } else if arms[i].name == name {
        Some(i)
    } else {
        spec_first_async_arm(arms, name, i + 1)
    }
}

/// Resolves a field name against the asynchronous dispatch plan: the
/// position of the first arm with that name, or nothing for an unknown
/// field, which is fatal there too.
#[verifier::loop_isolation(false)]
pub fn async_resolve(p: &AsyncValuePlan, field: &str) -> (r: Option<usize>)
    ensures
        match r {
            Some(k) => spec_first_async_arm(p.arms.deep_view(), field@, 0) == Some(k as int),
            None => spec_first_async_arm(p.arms.deep_view(), field@, 0) is None,
        },
{
    let ghost armsd = p.arms.deep_view();
    let n = p.arms.len();
    let mut i: usize = 0;
    while i < n
        invariant
            n == p.arms.len(),
            i <= n,
            spec_first_async_arm(armsd, field@, 0) == spec_first_async_arm(
                armsd,
                field@,
                i as int,
            ),
        decreases n - i,
    {
        assert(armsd[i as int] == p.arms[i as int].deep_view());
        if str_eq(p.arms[i].name.as_str(), field) {
            return Some(i);
        }
        i += 1;
    }
    None
}

} // verus!
