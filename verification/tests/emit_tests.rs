use interface_codegen::annot::{OptionValue, RawOption, Spanned};
use interface_codegen::ast::{GenericsModel, MethodModel, ParamModel, TraitDecl, TyExpr};
use interface_codegen::builder::build;
use interface_codegen::emit::{
    ArgumentSource, ReprPlan, StructuralNarrow, SyncOutcome, async_resolve, sync_resolve,
};
use interface_codegen::repr::variant_ident;
use interface_codegen::strutil::{lex_le_exec, sort_strings, str_concat, str_eq, u64_to_dec_string};

fn flag(key: &str, span: u64) -> RawOption {
    RawOption { key: key.to_string(), value: OptionValue::Flag, span }
}

fn single(key: &str, val: &str, span: u64) -> RawOption {
    RawOption { key: key.to_string(), value: OptionValue::Single(val.to_string()), span }
}

fn list(key: &str, vals: &[(&str, u64)], span: u64) -> RawOption {
    let items = vals
        .iter()
        .map(|(v, sp)| Spanned { span: *sp, item: v.to_string() })
        .collect();
    RawOption { key: key.to_string(), value: OptionValue::ValueList(items), span }
}

fn pair(key: &str, ty: &str, path: &str, span: u64) -> RawOption {
    RawOption {
        key: key.to_string(),
        value: OptionValue::Pair(ty.to_string(), path.to_string()),
        span,
    }
}

fn method(ident: &str, is_async: bool, params: Vec<ParamModel>, ret: &str) -> MethodModel {
    MethodModel {
        ident: ident.to_string(),
        is_async,
        params,
        ret: TyExpr::Name(ret.to_string()),
        attrs: vec![],
        doc: None,
        deprecation: None,
    }
}

fn character_decl() -> TraitDecl {
    let mut episode = method("in_episode", false, vec![], "bool");
    episode.params = vec![ParamModel {
        name: "episode".to_string(),
        ty: TyExpr::Name("i32".to_string()),
        attrs: vec![],
    }];
    TraitDecl {
        ident: "Character".to_string(),
        vis: "pub".to_string(),
        generics: GenericsModel::new(),
        assoc_types: vec![],
        assoc_consts: vec![],
        methods: vec![
            method("id", false, vec![], "String"),
            method("friends", true, vec![], "FriendList"),
            episode,
        ],
        attrs: vec![vec![list("for", &[("Human", 2), ("Droid", 3)], 1)]],
        doc: None,
    }
}

#[test]
fn metadata_registers_implementers_sorted_and_fields_in_order() {
    let d = build(&character_decl(), &vec![]).unwrap();
    let plan = d.type_metadata_plan();
    assert_eq!(plan.name, "Character");
    // sorted deterministically, whatever the declaration order
    assert_eq!(plan.implementer_registrations, vec!["Droid".to_string(), "Human".to_string()]);
    // declared order, verbatim
    let names: Vec<&str> = plan.field_registrations.iter().map(|f| f.name.as_str()).collect();
    assert_eq!(names, vec!["id", "friends", "in_episode"]);
    assert_eq!(plan.field_registrations[2].args.len(), 1);
    assert_eq!(plan.field_registrations[2].args[0].name, "episode");
}

#[test]
fn sync_plan_splits_fields_and_rejects_async_ones() {
    let d = build(&character_decl(), &vec![]).unwrap();
    let plan = d.sync_value_plan();
    let sync_names: Vec<&str> = plan.sync_arms.iter().map(|a| a.name.as_str()).collect();
    assert_eq!(sync_names, vec!["id", "in_episode"]);
    assert_eq!(plan.async_rejects, vec!["friends".to_string()]);
    assert!(matches!(plan.structural, StructuralNarrow::EnumMatch(_)));

    assert_eq!(sync_resolve(&plan, "id"), SyncOutcome::Dispatch(0));
    assert_eq!(sync_resolve(&plan, "in_episode"), SyncOutcome::Dispatch(1));
    assert_eq!(sync_resolve(&plan, "friends"), SyncOutcome::AsyncRejected);
    assert_eq!(sync_resolve(&plan, "no_such_field"), SyncOutcome::NoField);
}

#[test]
fn sync_resolution_is_idempotent() {
    let d = build(&character_decl(), &vec![]).unwrap();
    let plan = d.sync_value_plan();
    let first = sync_resolve(&plan, "in_episode");
    let second = sync_resolve(&plan, "in_episode");
    assert_eq!(first, second);
}

#[test]
fn async_plan_covers_every_field_and_wraps_sync_results() {
    let d = build(&character_decl(), &vec![]).unwrap();
    let plan = d.async_value_plan();
    assert_eq!(plan.arms.len(), 3);
    // a synchronous method's immediate result is wrapped ready; an
    // asynchronous one is awaited as it is
    assert!(plan.arms[0].wrap_ready);
    assert!(!plan.arms[1].wrap_ready);
    assert!(plan.arms[2].wrap_ready);
    assert!(plan.self_sync);
    // the scalar stayed generic, so it must be sendable across workers
    assert!(plan.scalar_send_sync);

    let k = async_resolve(&plan, "friends").unwrap();
    assert_eq!(plan.arms[k].name, "friends");
    assert!(async_resolve(&plan, "no_such_field").is_none());
}

#[test]
fn async_arm_of_a_sync_field_carries_the_same_invocation() {
    let d = build(&character_decl(), &vec![]).unwrap();
    let sync_arm = d.fields[2].resolve_arm().unwrap();
    let async_arm = d.fields[2].resolve_async_arm();
    assert_eq!(async_arm.name, sync_arm.name);
    assert_eq!(async_arm.method, sync_arm.method);
    assert_eq!(async_arm.args.len(), sync_arm.args.len());
    assert!(async_arm.wrap_ready);
    assert!(matches!(
        (&async_arm.args[0], &sync_arm.args[0]),
        (
            ArgumentSource::FromArgs { name: a, .. },
            ArgumentSource::FromArgs { name: b, .. },
        ) if a == b
    ));
    // an async field's arm is never offered to the sync dispatch
    assert!(d.fields[1].resolve_arm().is_none());
    assert!(!d.fields[1].resolve_async_arm().wrap_ready);
}

#[test]
fn tagged_union_artifacts_mirror_the_implementer_list() {
    let d = build(&character_decl(), &vec![]).unwrap();
    let a = d.artifacts();
    match &a.repr {
        ReprPlan::Enum { def, from_conversions, trait_impl } => {
            assert_eq!(def.ident, "CharacterValue");
            assert_eq!(def.variants.len(), 2);
            assert_eq!(def.variants[0].ident, "Impl0");
            assert_eq!(def.variants[0].ty, "Human");
            assert_eq!(def.variants[1].ident, "Impl1");
            assert_eq!(def.variants[1].ty, "Droid");
            assert_eq!(from_conversions.len(), 2);
            assert_eq!(trait_impl.first_variant, "Human");
            assert_eq!(trait_impl.methods.len(), 3);
            // the forwarded call is awaited exactly where the method
            // is asynchronous, and the async rewrite wraps the block
            assert!(!trait_impl.methods[0].awaited);
            assert!(trait_impl.methods[1].awaited);
            assert!(trait_impl.use_async_trait);
            assert_eq!(trait_impl.methods[2].arg_names, vec!["episode".to_string()]);
            assert_eq!(trait_impl.methods[0].arms.len(), 2);
        }
        ReprPlan::Dyn(_) => panic!("expected the tagged union"),
    }
    assert!(a.conformance.assert_implementers_unique);
    assert_eq!(a.conformance.implementer_marks, vec!["Human".to_string(), "Droid".to_string()]);
    assert_eq!(a.output.field_marks.len(), 3);
    assert_eq!(a.output.field_marks[2].arg_tys.len(), 1);
}

#[test]
fn dyn_artifacts_carry_the_alias_and_narrowing_arms() {
    let mut decl = character_decl();
    decl.attrs = vec![vec![
        list("for", &[("Human", 2), ("Droid", 3)], 1),
        single("dyn", "CharacterValue", 4),
        pair("on", "Human", "narrow_human", 5),
        pair("on", "Droid", "narrow_droid", 6),
    ]];
    let d = build(&decl, &vec![]).unwrap();
    let a = d.artifacts();
    match &a.repr {
        ReprPlan::Dyn(alias) => {
            assert_eq!(alias.ident, "CharacterValue");
            assert_eq!(alias.trait_ident, "Character");
            assert!(alias.send_sync);
        }
        ReprPlan::Enum { .. } => panic!("expected the dynamic-dispatch alias"),
    }
    assert!(matches!(a.sync_value.structural, StructuralNarrow::DynForward));
    assert_eq!(a.sync_value.narrow_arms.len(), 2);
    assert_eq!(a.sync_value.narrow_arms[0].ty, "Human");
    assert!(!a.sync_value.narrow_arms[0].wrap_ready);
    // external downcasts always take the context
    assert!(a.sync_value.narrow_arms[0].call.pass_context);
    // the asynchronous boundary wraps every narrowed value ready
    assert!(a.async_value.narrow_arms[0].wrap_ready);
}

#[test]
fn implementers_without_strategies_produce_no_narrowing_arms() {
    let d = build(&character_decl(), &vec![]).unwrap();
    let plan = d.sync_value_plan();
    assert_eq!(plan.narrow_arms.len(), 0);
    assert_eq!(plan.type_name_checks.len(), 0);
    assert!(!d.artifacts().conformance.implementer_marks.is_empty());
}

#[test]
fn singleton_interfaces_skip_the_uniqueness_assertion() {
    let mut decl = character_decl();
    decl.attrs = vec![vec![list("for", &[("Human", 2)], 1)]];
    let d = build(&decl, &vec![]).unwrap();
    assert!(!d.conformance_plan().assert_implementers_unique);
}

#[test]
fn variant_identifiers_count_in_decimal() {
    assert_eq!(variant_ident(0), "Impl0");
    assert_eq!(variant_ident(1), "Impl1");
    assert_eq!(variant_ident(12), "Impl12");
    assert_eq!(u64_to_dec_string(0), "0");
    assert_eq!(u64_to_dec_string(907), "907");
}

#[test]
fn string_utilities_agree_with_the_standard_ones() {
    assert!(str_eq("abc", "abc"));
    assert!(!str_eq("abc", "abd"));
    assert!(!str_eq("abc", "ab"));
    assert_eq!(str_concat("ab", "cd"), "abcd");
    assert!(lex_le_exec("Droid", "Human"));
    assert!(!lex_le_exec("Human", "Droid"));
    assert!(lex_le_exec("ab", "abc"));
    assert!(lex_le_exec("abc", "abc"));
    let sorted = sort_strings(&vec![
        "Human".to_string(),
        "Droid".to_string(),
        "Alien".to_string(),
        "Droid".to_string(),
    ]);
    assert_eq!(
        sorted,
        vec![
            "Alien".to_string(),
            "Droid".to_string(),
            "Droid".to_string(),
            "Human".to_string(),
        ]
    );
}
