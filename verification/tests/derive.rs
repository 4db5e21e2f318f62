use catalog_dump::derive::{add_trait_bounds, derive_dump, dump_fields, DataKind, FieldAccess, Fields, GenericParam};

#[test]
fn named_fields_are_walked_in_order() {
    let walked = dump_fields(DataKind::Struct(Fields::Named(vec!["header".to_string(), "query".to_string()])));
    assert_eq!(walked, vec![FieldAccess::Named("header".to_string()), FieldAccess::Named("query".to_string())]);
}

#[test]
fn tuple_fields_are_walked_by_position() {
    let walked = dump_fields(DataKind::Struct(Fields::Unnamed(3)));
    assert_eq!(walked, vec![FieldAccess::Index(0), FieldAccess::Index(1), FieldAccess::Index(2)]);
}

#[test]
fn unit_struct_walks_nothing() {
    assert!(dump_fields(DataKind::Struct(Fields::Unit)).is_empty());
}

#[test]
fn type_parameters_gain_walk() {
    let params = vec![
        GenericParam::Lifetime("'a".to_string()),
        GenericParam::Type { name: "T".to_string(), bounds: vec!["Clone".to_string()] },
        GenericParam::Const("N".to_string()),
        GenericParam::Type { name: "U".to_string(), bounds: vec![] },
    ];
    let bounded = add_trait_bounds(params);
    assert_eq!(
        bounded,
        vec![
            GenericParam::Lifetime("'a".to_string()),
            GenericParam::Type { name: "T".to_string(), bounds: vec!["Clone".to_string(), "Walk".to_string()] },
            GenericParam::Const("N".to_string()),
            GenericParam::Type { name: "U".to_string(), bounds: vec!["Walk".to_string()] },
        ]
    );
}

#[test]
fn derive_combines_bounds_and_fields() {
    let imp = derive_dump(
        "Pair".to_string(),
        vec![GenericParam::Type { name: "T".to_string(), bounds: vec![] }],
        vec!["T: Copy".to_string()],
        DataKind::Struct(Fields::Unnamed(2)),
    );
    assert_eq!(imp.where_predicates, vec!["T: Copy".to_string()]);
    assert_eq!(imp.self_name, "Pair");
    assert_eq!(imp.generics, vec![GenericParam::Type { name: "T".to_string(), bounds: vec!["Walk".to_string()] }]);
    assert_eq!(imp.walked, vec![FieldAccess::Index(0), FieldAccess::Index(1)]);
}
