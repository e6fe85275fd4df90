use interface_codegen::annot::{OptionValue, RawOption, Spanned};
use interface_codegen::errors::ErrorKind;
use interface_codegen::field_meta::{ArgumentMeta, TraitMethodMeta};
use interface_codegen::impl_meta::ImplementerMeta;
use interface_codegen::annot::DeprecationAttr;
use interface_codegen::meta::InterfaceMeta;

fn flag(key: &str, span: u64) -> RawOption {
    RawOption { key: key.to_string(), value: OptionValue::Flag, span }
}

fn single(key: &str, val: &str, span: u64) -> RawOption {
    RawOption { key: key.to_string(), value: OptionValue::Single(val.to_string()), span }
}

fn list(key: &str, vals: &[(&str, u64)], span: u64) -> RawOption {
    let items = vals
        .iter()
        .map(|(v, sp)| Spanned { span: *sp, item: v.to_string() })
        .collect();
    RawOption { key: key.to_string(), value: OptionValue::ValueList(items), span }
}

fn pair(key: &str, ty: &str, path: &str, span: u64) -> RawOption {
    RawOption {
        key: key.to_string(),
        value: OptionValue::Pair(ty.to_string(), path.to_string()),
        span,
    }
}

#[test]
fn interface_site_parses_every_option() {
    let site = vec![
        single("name", "Character", 1),
        single("desc", "a description", 2),
        single("ctx", "Database", 3),
        single("scalar", "DefaultScalarValue", 4),
        list("for", &[("Human", 6), ("Droid", 7)], 5),
        single("enum", "CharacterValue", 8),
        flag("async", 9),
        pair("on", "Ewok", "resolve_ewok", 10),
        flag("internal", 11),
    ];
    let m = InterfaceMeta::parse(&site).unwrap();
    assert_eq!(m.name.as_ref().unwrap().item, "Character");
    assert_eq!(m.description.as_ref().unwrap().item, "a description");
    assert_eq!(m.context.as_ref().unwrap().item, "Database");
    assert_eq!(m.scalar.as_ref().unwrap().item, "DefaultScalarValue");
    assert_eq!(m.implementers.len(), 2);
    assert_eq!(m.implementers[0].item, "Human");
    assert_eq!(m.implementers[1].item, "Droid");
    assert_eq!(m.as_enum.as_ref().unwrap().item, "CharacterValue");
    assert!(m.as_dyn.is_none());
    assert_eq!(m.asyncness, Some(9));
    assert_eq!(m.external_downcasts.len(), 1);
    assert_eq!(m.external_downcasts[0].ty, "Ewok");
    assert_eq!(m.external_downcasts[0].path, "resolve_ewok");
    assert!(m.is_internal);
}

#[test]
fn duplicate_option_within_one_site_is_an_error() {
    let site = vec![single("name", "A", 1), single("name", "B", 2)];
    let e = InterfaceMeta::parse(&site).unwrap_err();
    assert_eq!(e.kind, ErrorKind::DuplicateOption { key: "name".to_string() });
    assert_eq!(e.span, 2);
}

#[test]
fn unknown_option_names_the_offending_key() {
    let site = vec![single("nmae", "A", 7)];
    let e = InterfaceMeta::parse(&site).unwrap_err();
    assert_eq!(e.kind, ErrorKind::UnknownOption { key: "nmae".to_string() });
    assert_eq!(e.span, 7);
}

#[test]
fn wrong_token_shape_is_an_error() {
    let site = vec![flag("name", 3)];
    let e = InterfaceMeta::parse(&site).unwrap_err();
    assert_eq!(e.kind, ErrorKind::BadOptionShape { key: "name".to_string() });
}

#[test]
fn relisting_an_implementer_is_a_duplicate_not_a_dedup() {
    let site = vec![list("for", &[("Human", 2), ("Human", 3)], 1)];
    let e = InterfaceMeta::parse(&site).unwrap_err();
    assert_eq!(e.kind, ErrorKind::DuplicateOption { key: "Human".to_string() });
    assert_eq!(e.span, 3);
}

#[test]
fn single_implementer_without_brackets_is_a_list_of_one() {
    let site = vec![single("for", "Human", 1)];
    let m = InterfaceMeta::parse(&site).unwrap();
    assert_eq!(m.implementers.len(), 1);
    assert_eq!(m.implementers[0].item, "Human");
}

#[test]
fn keying_one_type_to_two_external_downcasts_is_a_duplicate() {
    let site = vec![pair("on", "Ewok", "a", 1), pair("on", "Ewok", "b", 2)];
    let e = InterfaceMeta::parse(&site).unwrap_err();
    assert_eq!(e.kind, ErrorKind::DuplicateOption { key: "Ewok".to_string() });
}

#[test]
fn merge_reports_option_set_at_both_sites() {
    let a = InterfaceMeta::parse(&vec![single("name", "A", 1)]).unwrap();
    let b = InterfaceMeta::parse(&vec![single("name", "B", 2)]).unwrap();
    let e = a.try_merge(&b).unwrap_err();
    assert_eq!(e.kind, ErrorKind::DuplicateOption { key: "name".to_string() });
    assert_eq!(e.span, 2);
}

#[test]
fn merge_duplicate_is_order_independent() {
    let a = InterfaceMeta::parse(&vec![single("scalar", "S", 1)]).unwrap();
    let b = InterfaceMeta::parse(&vec![single("scalar", "T", 2)]).unwrap();
    let e1 = a.try_merge(&b).unwrap_err();
    let e2 = b.try_merge(&a).unwrap_err();
    assert_eq!(e1.kind, ErrorKind::DuplicateOption { key: "scalar".to_string() });
    assert_eq!(e2.kind, ErrorKind::DuplicateOption { key: "scalar".to_string() });
}

#[test]
fn merge_duplicate_across_sites_of_implementer_lists() {
    let a = InterfaceMeta::parse(&vec![list("for", &[("Human", 2)], 1)]).unwrap();
    let b = InterfaceMeta::parse(&vec![list("for", &[("Droid", 4), ("Human", 5)], 3)]).unwrap();
    let e1 = a.try_merge(&b).unwrap_err();
    let e2 = b.try_merge(&a).unwrap_err();
    assert_eq!(e1.kind, ErrorKind::DuplicateOption { key: "Human".to_string() });
    assert_eq!(e2.kind, ErrorKind::DuplicateOption { key: "Human".to_string() });
}

#[test]
fn merge_unites_disjoint_records() {
    let a = InterfaceMeta::parse(&vec![single("name", "A", 1), list("for", &[("X", 3)], 2)])
        .unwrap();
    let b = InterfaceMeta::parse(&vec![single("ctx", "Db", 4), list("for", &[("Y", 6)], 5)])
        .unwrap();
    let m = a.try_merge(&b).unwrap();
    assert_eq!(m.name.as_ref().unwrap().item, "A");
    assert_eq!(m.context.as_ref().unwrap().item, "Db");
    assert_eq!(m.implementers.len(), 2);
    assert_eq!(m.implementers[0].item, "X");
    assert_eq!(m.implementers[1].item, "Y");
}

#[test]
fn dyn_and_enum_aliases_are_mutually_exclusive() {
    let sites = vec![
        vec![single("dyn", "DynChar", 1)],
        vec![single("enum", "CharValue", 2)],
    ];
    let e = InterfaceMeta::from_attrs(&sites, &None).unwrap_err();
    assert_eq!(e.kind, ErrorKind::BackendConflict);
    assert_eq!(e.span, 1);
}

#[test]
fn description_falls_back_to_the_doc_comment() {
    let sites = vec![vec![single("name", "A", 1)]];
    let doc = Some(Spanned { span: 9, item: "from the docs".to_string() });
    let m = InterfaceMeta::from_attrs(&sites, &doc).unwrap();
    assert_eq!(m.description.as_ref().unwrap().item, "from the docs");
    assert_eq!(m.description.as_ref().unwrap().span, 9);

    let sites2 = vec![vec![single("desc", "explicit", 2)]];
    let m2 = InterfaceMeta::from_attrs(&sites2, &doc).unwrap();
    assert_eq!(m2.description.as_ref().unwrap().item, "explicit");
}

#[test]
fn implementer_meta_parses_and_merges() {
    let m = ImplementerMeta::parse(&vec![single("scalar", "S", 1), flag("dyn", 2), flag(
        "async", 3,
    )])
    .unwrap();
    assert_eq!(m.scalar.as_ref().unwrap().item, "S");
    assert_eq!(m.as_dyn, Some(2));
    assert_eq!(m.asyncness, Some(3));

    let a = ImplementerMeta::parse(&vec![flag("dyn", 1)]).unwrap();
    let b = ImplementerMeta::parse(&vec![flag("dyn", 2)]).unwrap();
    let e = a.try_merge(&b).unwrap_err();
    assert_eq!(e.kind, ErrorKind::DuplicateOption { key: "dyn".to_string() });
    let e2 = b.try_merge(&a).unwrap_err();
    assert_eq!(e2.kind, ErrorKind::DuplicateOption { key: "dyn".to_string() });
}

#[test]
fn method_meta_ignore_composes_with_nothing() {
    let sites = vec![vec![flag("ignore", 1), single("name", "x", 2)]];
    let e = TraitMethodMeta::from_attrs(&sites, &None, &None).unwrap_err();
    assert_eq!(e.kind, ErrorKind::NotComposable { key: "ignore".to_string() });
    assert_eq!(e.span, 1);
}

#[test]
fn method_meta_downcast_composes_with_nothing() {
    let sites = vec![vec![single("deprecated", "old", 2), flag("downcast", 3)]];
    let e = TraitMethodMeta::from_attrs(&sites, &None, &None).unwrap_err();
    assert_eq!(e.kind, ErrorKind::NotComposable { key: "downcast".to_string() });
    assert_eq!(e.span, 3);
}

#[test]
fn method_meta_skip_is_ignore() {
    let sites = vec![vec![flag("skip", 1)]];
    let m = TraitMethodMeta::from_attrs(&sites, &None, &None).unwrap();
    assert_eq!(m.ignore, Some(1));
}

#[test]
fn method_meta_deprecation_falls_back_to_the_extracted_attribute() {
    let sites = vec![vec![]];
    let depr = Some(DeprecationAttr { reason: Some("use v2".to_string()), span: 4 });
    let m = TraitMethodMeta::from_attrs(&sites, &None, &depr).unwrap();
    let d = m.deprecated.as_ref().unwrap();
    assert_eq!(d.span, 4);
    assert_eq!(d.item.as_deref(), Some("use v2"));

    let sites2 = vec![vec![flag("deprecated", 1)]];
    let m2 = TraitMethodMeta::from_attrs(&sites2, &None, &depr).unwrap();
    assert_eq!(m2.deprecated.as_ref().unwrap().item, None);
}

#[test]
fn argument_meta_context_composes_with_nothing() {
    let sites = vec![vec![flag("ctx", 1), single("default", "0", 2)]];
    let e = ArgumentMeta::from_attrs(&sites).unwrap_err();
    assert_eq!(e.kind, ErrorKind::NotComposable { key: "context".to_string() });
}

#[test]
fn argument_meta_executor_and_context_conflict() {
    let sites = vec![vec![flag("exec", 1), flag("Context", 2)]];
    let e = ArgumentMeta::from_attrs(&sites).unwrap_err();
    assert_eq!(e.kind, ErrorKind::NotComposable { key: "context".to_string() });
}

#[test]
fn argument_meta_default_forms() {
    let m = ArgumentMeta::from_attrs(&vec![vec![flag("default", 1)]]).unwrap();
    assert_eq!(m.default.as_ref().unwrap().item, None);
    let m2 = ArgumentMeta::from_attrs(&vec![vec![single("default", "33", 1)]]).unwrap();
    assert_eq!(m2.default.as_ref().unwrap().item.as_deref(), Some("33"));
}
