use interface_codegen::annot::{OptionValue, RawOption, Spanned};
use interface_codegen::ast::{
    GenericParam, GenericsModel, MethodModel, ParamModel, TraitDecl, TyExpr,
};
use interface_codegen::builder::build;
use interface_codegen::definition::{
    ImplementerDowncastDefinition, MethodArgument, ScalarTy,
};
use interface_codegen::errors::ErrorKind;
use interface_codegen::repr::Representation;

fn flag(key: &str, span: u64) -> RawOption {
    RawOption { key: key.to_string(), value: OptionValue::Flag, span }
}

fn single(key: &str, val: &str, span: u64) -> RawOption {
    RawOption { key: key.to_string(), value: OptionValue::Single(val.to_string()), span }
}

fn list(key: &str, vals: &[(&str, u64)], span: u64) -> RawOption {
    let items = vals
        .iter()
        .map(|(v, sp)| Spanned { span: *sp, item: v.to_string() })
        .collect();
    RawOption { key: key.to_string(), value: OptionValue::ValueList(items), span }
}

fn pair(key: &str, ty: &str, path: &str, span: u64) -> RawOption {
    RawOption {
        key: key.to_string(),
        value: OptionValue::Pair(ty.to_string(), path.to_string()),
        span,
    }
}

fn method(ident: &str, params: Vec<ParamModel>, ret: TyExpr) -> MethodModel {
    MethodModel {
        ident: ident.to_string(),
        is_async: false,
        params,
        ret,
        attrs: vec![],
        doc: None,
        deprecation: None,
    }
}

fn plain_param(name: &str, ty: &str) -> ParamModel {
    ParamModel { name: name.to_string(), ty: TyExpr::Name(ty.to_string()), attrs: vec![] }
}

fn marked_param(name: &str, ty: &str, marker: &str, span: u64) -> ParamModel {
    ParamModel {
        name: name.to_string(),
        ty: TyExpr::Ref(Box::new(TyExpr::Name(ty.to_string()))),
        attrs: vec![vec![flag(marker, span)]],
    }
}

fn node_decl(attrs: Vec<Vec<RawOption>>) -> TraitDecl {
    TraitDecl {
        ident: "Node".to_string(),
        vis: "pub".to_string(),
        generics: GenericsModel::new(),
        assoc_types: vec![],
        assoc_consts: vec![],
        methods: vec![method("id", vec![], TyExpr::Name("ID".to_string()))],
        attrs,
        doc: None,
    }
}

#[test]
fn node_with_two_implementers_builds_a_tagged_union() {
    let decl = node_decl(vec![vec![list("for", &[("User", 2), ("Post", 3)], 1)]]);
    let d = build(&decl, &vec![]).unwrap();
    assert_eq!(d.name, "Node");
    assert_eq!(d.fields.len(), 1);
    assert_eq!(d.fields[0].name, "id");
    assert_eq!(d.fields[0].method, "id");
    assert!(matches!(&d.fields[0].ty, TyExpr::Name(n) if n == "ID"));
    assert!(!d.fields[0].is_async);
    assert_eq!(d.implementers.len(), 2);
    assert_eq!(d.implementers[0].ty, "User");
    assert_eq!(d.implementers[1].ty, "Post");
    assert!(d.implementers[0].downcast.is_none());
    assert!(d.implementers[1].downcast.is_none());
    match &d.repr {
        Representation::Enum(e) => {
            assert_eq!(e.ident, "NodeValue");
            assert_eq!(e.variants, vec!["User".to_string(), "Post".to_string()]);
            assert_eq!(e.trait_ident, "Node");
        }
        Representation::TraitObject(_) => panic!("expected the tagged union"),
    }
}

#[test]
fn requested_enum_alias_names_the_union() {
    let decl = node_decl(vec![vec![
        list("for", &[("User", 2)], 1),
        single("enum", "NodeKind", 3),
    ]]);
    let d = build(&decl, &vec![]).unwrap();
    match &d.repr {
        Representation::Enum(e) => assert_eq!(e.ident, "NodeKind"),
        Representation::TraitObject(_) => panic!("expected the tagged union"),
    }
}

#[test]
fn dyn_alias_without_downcasts_names_the_unresolvable_implementer() {
    let decl = node_decl(vec![vec![
        list("for", &[("User", 2), ("Post", 3)], 1),
        single("dyn", "NodeValue", 4),
    ]]);
    let e = build(&decl, &vec![]).unwrap_err();
    assert_eq!(e.kind, ErrorKind::UnresolvableImplementer { ty: "User".to_string() });
    assert_eq!(e.span, 2);
}

#[test]
fn dyn_alias_with_external_downcasts_builds() {
    let decl = node_decl(vec![vec![
        list("for", &[("User", 2), ("Post", 3)], 1),
        single("dyn", "NodeValue", 4),
        pair("on", "User", "narrow_user", 5),
        pair("on", "Post", "narrow_post", 6),
    ]]);
    let d = build(&decl, &vec![]).unwrap();
    match &d.repr {
        Representation::TraitObject(o) => {
            assert_eq!(o.ident, "NodeValue");
            assert_eq!(o.trait_ident, "Node");
        }
        Representation::Enum(_) => panic!("expected the dynamic-dispatch alias"),
    }
    assert_eq!(
        d.implementers[0].downcast,
        Some(ImplementerDowncastDefinition::External { path: "narrow_user".to_string() })
    );
}

#[test]
fn same_declaration_succeeds_on_the_tagged_union_backend() {
    // the same implementers, with no downcast strategy at all, pass
    // under the closed backend: the variant identifies the type
    let decl = node_decl(vec![vec![list("for", &[("User", 2), ("Post", 3)], 1)]]);
    assert!(build(&decl, &vec![]).unwrap().implementers.iter().all(|im| im.downcast.is_none()));
}

#[test]
fn tagged_union_needs_at_least_one_implementer() {
    let decl = node_decl(vec![vec![single("name", "Node", 1)]]);
    let e = build(&decl, &vec![]).unwrap_err();
    assert_eq!(e.kind, ErrorKind::NoImplementers);
}

#[test]
fn known_implementation_sites_stand_in_for_an_absent_list() {
    let decl = node_decl(vec![vec![]]);
    let d = build(&decl, &vec!["User".to_string()]).unwrap();
    assert_eq!(d.implementers.len(), 1);
    assert_eq!(d.implementers[0].ty, "User");
}

#[test]
fn downcast_method_supplies_the_strategy() {
    let mut decl = node_decl(vec![vec![
        list("for", &[("User", 2), ("Post", 3)], 1),
        single("dyn", "NodeValue", 4),
        pair("on", "Post", "narrow_post", 5),
    ]]);
    let mut dc = method(
        "as_user",
        vec![marked_param("ctx", "Database", "context", 7)],
        TyExpr::OptionOf(Box::new(TyExpr::Ref(Box::new(TyExpr::Name("User".to_string()))))),
    );
    dc.attrs = vec![vec![flag("downcast", 6)]];
    decl.methods.push(dc);
    let d = build(&decl, &vec![]).unwrap();
    // the method feeds downcast resolution, not field generation
    assert_eq!(d.fields.len(), 1);
    assert_eq!(
        d.implementers[0].downcast,
        Some(ImplementerDowncastDefinition::Method {
            name: "as_user".to_string(),
            with_context: true,
        })
    );
    assert!(matches!(&d.implementers[0].context_ty, Some(TyExpr::Name(n)) if n == "Database"));
    // the externally registered downcast wins for the other implementer
    assert_eq!(
        d.implementers[1].downcast,
        Some(ImplementerDowncastDefinition::External { path: "narrow_post".to_string() })
    );
}

#[test]
fn external_registration_wins_over_a_downcast_method() {
    let mut decl = node_decl(vec![vec![
        list("for", &[("User", 2)], 1),
        pair("on", "User", "narrow_user", 3),
    ]]);
    let mut dc = method(
        "as_user",
        vec![],
        TyExpr::OptionOf(Box::new(TyExpr::Ref(Box::new(TyExpr::Name("User".to_string()))))),
    );
    dc.attrs = vec![vec![flag("downcast", 4)]];
    decl.methods.push(dc);
    let d = build(&decl, &vec![]).unwrap();
    assert_eq!(
        d.implementers[0].downcast,
        Some(ImplementerDowncastDefinition::External { path: "narrow_user".to_string() })
    );
}

#[test]
fn two_downcast_methods_for_one_type_are_an_error() {
    let mut decl = node_decl(vec![vec![list("for", &[("User", 2)], 1)]]);
    let ret = || TyExpr::OptionOf(Box::new(TyExpr::Ref(Box::new(TyExpr::Name(
        "User".to_string(),
    )))));
    let mut a = method("as_user", vec![], ret());
    a.attrs = vec![vec![flag("downcast", 3)]];
    let mut b = method("as_user_too", vec![], ret());
    b.attrs = vec![vec![flag("downcast", 4)]];
    decl.methods.push(a);
    decl.methods.push(b);
    let e = build(&decl, &vec![]).unwrap_err();
    assert_eq!(e.kind, ErrorKind::DuplicateDowncast { ty: "User".to_string() });
    assert_eq!(e.span, 4);
}

#[test]
fn a_second_context_parameter_is_an_error() {
    let mut decl = node_decl(vec![vec![list("for", &[("User", 2)], 1)]]);
    decl.methods[0].params = vec![
        marked_param("c1", "Database", "context", 5),
        marked_param("c2", "Database", "context", 6),
    ];
    let e = build(&decl, &vec![]).unwrap_err();
    assert_eq!(e.kind, ErrorKind::ExtraContextParameter);
    assert_eq!(e.span, 6);
}

#[test]
fn a_second_executor_parameter_is_an_error() {
    let mut decl = node_decl(vec![vec![list("for", &[("User", 2)], 1)]]);
    decl.methods[0].params = vec![
        marked_param("e1", "X", "executor", 5),
        marked_param("e2", "X", "exec", 6),
    ];
    let e = build(&decl, &vec![]).unwrap_err();
    assert_eq!(e.kind, ErrorKind::ExtraExecutorParameter);
    assert_eq!(e.span, 6);
}

#[test]
fn parameters_classify_into_the_three_kinds() {
    let mut decl = node_decl(vec![vec![list("for", &[("User", 2)], 1)]]);
    decl.methods[0].params = vec![
        plain_param("limit", "i32"),
        marked_param("ctx", "Database", "context", 5),
        marked_param("ex", "X", "executor", 6),
    ];
    let d = build(&decl, &vec![]).unwrap();
    let args = &d.fields[0].arguments;
    assert_eq!(args.len(), 3);
    let reg = args[0].as_regular().expect("an exposed argument");
    assert_eq!(reg.name, "limit");
    assert!(args[0].context_ty().is_none());
    let cty = args[1].context_ty().expect("the context argument");
    assert!(matches!(cty, TyExpr::Name(n) if n == "Database"));
    assert!(args[1].as_regular().is_none());
    assert!(matches!(args[2], MethodArgument::Executor));
}

#[test]
fn ignored_methods_yield_no_field() {
    let mut decl = node_decl(vec![vec![list("for", &[("User", 2)], 1)]]);
    let mut hidden = method("hidden", vec![], TyExpr::Name("i32".to_string()));
    hidden.attrs = vec![vec![flag("ignore", 3)]];
    decl.methods.push(hidden);
    let d = build(&decl, &vec![]).unwrap();
    assert_eq!(d.fields.len(), 1);
}

#[test]
fn interface_async_marker_makes_every_field_async() {
    let decl = node_decl(vec![vec![list("for", &[("User", 2)], 1), flag("async", 3)]]);
    let d = build(&decl, &vec![]).unwrap();
    assert!(d.fields[0].is_async);
}

#[test]
fn scalar_naming_a_declared_parameter_is_explicitly_generic() {
    let mut decl = node_decl(vec![vec![
        list("for", &[("User", 2)], 1),
        single("scalar", "S", 3),
    ]]);
    decl.generics = GenericsModel {
        params: vec![GenericParam::TyParam {
            ident: "S".to_string(),
            bounds: vec![],
            default: None,
        }],
        where_predicates: vec![],
    };
    let d = build(&decl, &vec![]).unwrap();
    assert_eq!(d.scalar, ScalarTy::ExplicitGeneric("S".to_string()));

    let decl2 = node_decl(vec![vec![
        list("for", &[("User", 2)], 1),
        single("scalar", "DefaultScalarValue", 3),
    ]]);
    let d2 = build(&decl2, &vec![]).unwrap();
    assert_eq!(d2.scalar, ScalarTy::Concrete("DefaultScalarValue".to_string()));

    let decl3 = node_decl(vec![vec![list("for", &[("User", 2)], 1)]]);
    let d3 = build(&decl3, &vec![]).unwrap();
    assert_eq!(d3.scalar, ScalarTy::ImplicitGeneric);
}

#[test]
fn explicit_names_and_descriptions_override_derived_ones() {
    let mut decl = node_decl(vec![vec![list("for", &[("User", 2)], 1)]]);
    decl.methods[0].attrs = vec![vec![single("name", "identifier", 3), single(
        "desc",
        "the id",
        4,
    )]];
    let d = build(&decl, &vec![]).unwrap();
    assert_eq!(d.fields[0].name, "identifier");
    assert_eq!(d.fields[0].method, "id");
    assert_eq!(d.fields[0].description.as_deref(), Some("the id"));
}
