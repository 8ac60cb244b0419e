use entity_core::builder::build_schema;
use entity_core::decl::{
    EntityTypeDecl, FieldDecl, NkFieldDecl, NkStructDecl, PkFieldDecl, PkStructDecl, SkFieldDecl,
    SkStructDecl,
};
use entity_core::error::SchemaError;
use entity_core::keys::{AttributeValue, SchemaV2};
use entity_core::validate::validate_schema;

fn field(name: &str) -> FieldDecl {
    FieldDecl { field_name: name.to_string(), pk: None, sk: None, nks: Vec::new() }
}

fn pk_decl(name: &str) -> PkStructDecl {
    PkStructDecl { name: name.to_string(), value_prefix: None, value_suffix: None }
}

fn build_ok(decl: &EntityTypeDecl) -> SchemaV2 {
    match build_schema(decl) {
        Ok(s) => s,
        Err(e) => panic!("unexpected build error: {:?}", e),
    }
}

#[test]
fn single_unordered_pk_contributor_becomes_sole_segment() {
    let mut f = field("account_id");
    f.pk = Some(PkFieldDecl { prefix: None, order: None });
    let decl = EntityTypeDecl { pk: Some(pk_decl("ACC")), sk: None, nks: vec![], fields: vec![f] };
    let schema = build_ok(&decl);
    assert_eq!(schema.partition_key_def.attribute_name, "ACC");
    assert_eq!(schema.partition_key_def.attribute_value.segments.len(), 1);
    assert_eq!(
        schema.partition_key_def.attribute_value.segments[0].struct_field_name,
        "account_id"
    );
    assert!(schema.partition_key_def.attribute_value.segments[0].prefix.is_none());
}

#[test]
fn single_pk_contributor_without_struct_decl_names_the_attribute() {
    let mut f = field("username");
    f.pk = Some(PkFieldDecl { prefix: Some("u".to_string()), order: None });
    let decl = EntityTypeDecl { pk: None, sk: None, nks: vec![], fields: vec![f] };
    let schema = build_ok(&decl);
    assert_eq!(schema.partition_key_def.attribute_name, "username");
    // The field's prefix labels its segment alone; the composite gets no
    // overall prefix or suffix of its own.
    assert!(schema.partition_key_def.attribute_value.prefix.is_none());
    assert!(schema.partition_key_def.attribute_value.suffix.is_none());
    assert_eq!(schema.partition_key_def.attribute_value.segments.len(), 1);
    assert_eq!(
        schema.partition_key_def.attribute_value.segments[0].prefix,
        Some("u".to_string())
    );
}

#[test]
fn missing_order_on_multi_pk_is_rejected() {
    let mut a = field("a");
    a.pk = Some(PkFieldDecl { prefix: None, order: Some(0) });
    let mut b = field("b");
    b.pk = Some(PkFieldDecl { prefix: None, order: None });
    let decl =
        EntityTypeDecl { pk: Some(pk_decl("pk")), sk: None, nks: vec![], fields: vec![a, b] };
    match build_schema(&decl) {
        Err(SchemaError::MissingOrder { key_name, field_names }) => {
            assert_eq!(key_name, "pk");
            assert_eq!(field_names, vec!["b".to_string()]);
        }
        other => panic!("expected missing-order error, got {:?}", other),
    }
}

#[test]
fn duplicate_orders_are_rejected_as_missing_order() {
    let mut a = field("a");
    a.pk = Some(PkFieldDecl { prefix: None, order: Some(3) });
    let mut b = field("b");
    b.pk = Some(PkFieldDecl { prefix: None, order: Some(3) });
    let decl =
        EntityTypeDecl { pk: Some(pk_decl("pk")), sk: None, nks: vec![], fields: vec![a, b] };
    match build_schema(&decl) {
        Err(SchemaError::MissingOrder { key_name, field_names }) => {
            assert_eq!(key_name, "pk");
            assert_eq!(field_names, vec!["a".to_string(), "b".to_string()]);
        }
        other => panic!("expected missing-order error, got {:?}", other),
    }
}

#[test]
fn missing_order_in_sort_key_is_rejected() {
    let mut a = field("a");
    a.sk = Some(SkFieldDecl { prefix: None, order: None });
    let mut b = field("b");
    b.sk = Some(SkFieldDecl { prefix: None, order: None });
    let decl = EntityTypeDecl {
        pk: Some(pk_decl("pk")),
        sk: Some(SkStructDecl {
            name: "sk".to_string(),
            value_prefix: None,
            value_suffix: None,
            static_value: None,
        }),
        nks: vec![],
        fields: vec![a, b],
    };
    match build_schema(&decl) {
        Err(SchemaError::MissingOrder { key_name, field_names }) => {
            assert_eq!(key_name, "sk");
            assert_eq!(field_names.len(), 2);
        }
        other => panic!("expected missing-order error, got {:?}", other),
    }
}

#[test]
fn missing_order_in_non_key_group_is_rejected() {
    let mut pkf = field("id");
    pkf.pk = Some(PkFieldDecl { prefix: None, order: None });
    let mut a = field("a");
    a.nks.push(NkFieldDecl {
        group_name: Some("g".to_string()),
        prefix: None,
        order: Some(0),
    });
    let mut b = field("b");
    b.nks.push(NkFieldDecl { group_name: Some("g".to_string()), prefix: None, order: None });
    let decl = EntityTypeDecl { pk: None, sk: None, nks: vec![], fields: vec![pkf, a, b] };
    match build_schema(&decl) {
        Err(SchemaError::MissingOrder { key_name, field_names }) => {
            assert_eq!(key_name, "g");
            assert_eq!(field_names, vec!["b".to_string()]);
        }
        other => panic!("expected missing-order error, got {:?}", other),
    }
}

#[test]
fn several_pk_contributors_without_struct_decl_are_ambiguous() {
    let mut a = field("a");
    a.pk = Some(PkFieldDecl { prefix: None, order: Some(0) });
    let mut b = field("b");
    b.pk = Some(PkFieldDecl { prefix: None, order: Some(1) });
    let decl = EntityTypeDecl { pk: None, sk: None, nks: vec![], fields: vec![a, b] };
    match build_schema(&decl) {
        Err(SchemaError::AmbiguousKeyOwnership { key_name, contributor_count }) => {
            assert_eq!(key_name, "pk");
            assert_eq!(contributor_count, 2);
        }
        other => panic!("expected ambiguous-ownership error, got {:?}", other),
    }
}

#[test]
fn zero_pk_contributors_without_struct_decl_are_ambiguous() {
    let decl = EntityTypeDecl { pk: None, sk: None, nks: vec![], fields: vec![field("x")] };
    match build_schema(&decl) {
        Err(SchemaError::AmbiguousKeyOwnership { key_name, contributor_count }) => {
            assert_eq!(key_name, "pk");
            assert_eq!(contributor_count, 0);
        }
        other => panic!("expected ambiguous-ownership error, got {:?}", other),
    }
}

#[test]
fn several_sk_contributors_without_struct_decl_are_ambiguous() {
    let mut id = field("id");
    id.pk = Some(PkFieldDecl { prefix: None, order: None });
    let mut a = field("a");
    a.sk = Some(SkFieldDecl { prefix: None, order: Some(0) });
    let mut b = field("b");
    b.sk = Some(SkFieldDecl { prefix: None, order: Some(1) });
    let decl = EntityTypeDecl { pk: None, sk: None, nks: vec![], fields: vec![id, a, b] };
    match build_schema(&decl) {
        Err(SchemaError::AmbiguousKeyOwnership { key_name, .. }) => {
            assert_eq!(key_name, "sk");
        }
        other => panic!("expected ambiguous-ownership error, got {:?}", other),
    }
}

#[test]
fn segment_into_static_sort_key_is_rejected() {
    let mut id = field("id");
    id.pk = Some(PkFieldDecl { prefix: None, order: None });
    let mut a = field("a");
    a.sk = Some(SkFieldDecl { prefix: None, order: None });
    let decl = EntityTypeDecl {
        pk: None,
        sk: Some(SkStructDecl {
            name: "sk".to_string(),
            value_prefix: None,
            value_suffix: None,
            static_value: Some("fixed".to_string()),
        }),
        nks: vec![],
        fields: vec![id, a],
    };
    match build_schema(&decl) {
        Err(SchemaError::StaticSegmentConflict { group_name, field_names }) => {
            assert_eq!(group_name, "sk");
            assert_eq!(field_names, vec!["a".to_string()]);
        }
        other => panic!("expected static-segment conflict, got {:?}", other),
    }
}

#[test]
fn segment_into_static_group_is_rejected() {
    let mut id = field("id");
    id.pk = Some(PkFieldDecl { prefix: None, order: None });
    let mut a = field("a");
    a.nks.push(NkFieldDecl { group_name: Some("type".to_string()), prefix: None, order: None });
    let decl = EntityTypeDecl {
        pk: None,
        sk: None,
        nks: vec![NkStructDecl {
            name: "type".to_string(),
            value_prefix: None,
            value_suffix: None,
            static_value: Some("dynamo".to_string()),
        }],
        fields: vec![id, a],
    };
    match build_schema(&decl) {
        Err(SchemaError::StaticSegmentConflict { group_name, field_names }) => {
            assert_eq!(group_name, "type");
            assert_eq!(field_names, vec!["a".to_string()]);
        }
        other => panic!("expected static-segment conflict, got {:?}", other),
    }
}

#[test]
fn empty_partition_key_fails_validation() {
    let decl =
        EntityTypeDecl { pk: Some(pk_decl("pk")), sk: None, nks: vec![], fields: vec![field("x")] };
    let schema = build_ok(&decl);
    match validate_schema(&schema) {
        Err(SchemaError::EmptyComposite { attribute_name }) => {
            assert_eq!(attribute_name, "pk");
        }
        other => panic!("expected empty-composite error, got {:?}", other),
    }
}

#[test]
fn empty_composite_sort_key_fails_validation() {
    let mut id = field("id");
    id.pk = Some(PkFieldDecl { prefix: None, order: None });
    let decl = EntityTypeDecl {
        pk: None,
        sk: Some(SkStructDecl {
            name: "sk".to_string(),
            value_prefix: None,
            value_suffix: None,
            static_value: None,
        }),
        nks: vec![],
        fields: vec![id],
    };
    let schema = build_ok(&decl);
    match validate_schema(&schema) {
        Err(SchemaError::EmptyComposite { attribute_name }) => {
            assert_eq!(attribute_name, "sk");
        }
        other => panic!("expected empty-composite error, got {:?}", other),
    }
}

#[test]
fn empty_composite_group_fails_validation() {
    let mut id = field("id");
    id.pk = Some(PkFieldDecl { prefix: None, order: None });
    let decl = EntityTypeDecl {
        pk: None,
        sk: None,
        nks: vec![NkStructDecl {
            name: "g".to_string(),
            value_prefix: None,
            value_suffix: None,
            static_value: None,
        }],
        fields: vec![id],
    };
    let schema = build_ok(&decl);
    match validate_schema(&schema) {
        Err(SchemaError::EmptyComposite { attribute_name }) => {
            assert_eq!(attribute_name, "g");
        }
        other => panic!("expected empty-composite error, got {:?}", other),
    }
}

#[test]
fn static_groups_and_keys_pass_validation() {
    let mut id = field("id");
    id.pk = Some(PkFieldDecl { prefix: None, order: None });
    let decl = EntityTypeDecl {
        pk: None,
        sk: Some(SkStructDecl {
            name: "sk".to_string(),
            value_prefix: None,
            value_suffix: None,
            static_value: Some("count".to_string()),
        }),
        nks: vec![NkStructDecl {
            name: "type".to_string(),
            value_prefix: None,
            value_suffix: None,
            static_value: Some("dynamo".to_string()),
        }],
        fields: vec![id],
    };
    let schema = build_ok(&decl);
    assert!(validate_schema(&schema).is_ok());
    match &schema.sort_key_def {
        Some(sk) => match &sk.attribute_value {
            AttributeValue::Static(v) => assert_eq!(v, "count"),
            other => panic!("expected a static sort key, got {:?}", other),
        },
        None => panic!("expected a sort key"),
    }
}

#[test]
fn contributors_are_sorted_by_explicit_order() {
    let mut a = field("a");
    a.pk = Some(PkFieldDecl { prefix: None, order: Some(2) });
    let mut b = field("b");
    b.pk = Some(PkFieldDecl { prefix: None, order: Some(0) });
    let mut c = field("c");
    c.pk = Some(PkFieldDecl { prefix: None, order: Some(1) });
    let decl =
        EntityTypeDecl { pk: Some(pk_decl("pk")), sk: None, nks: vec![], fields: vec![a, b, c] };
    let schema = build_ok(&decl);
    let names: Vec<&str> = schema
        .partition_key_def
        .attribute_value
        .segments
        .iter()
        .map(|s| s.struct_field_name.as_str())
        .collect();
    assert_eq!(names, vec!["b", "c", "a"]);
}

#[test]
fn error_descriptions_name_the_offending_declaration() {
    let e = SchemaError::EmptyComposite { attribute_name: "pk".to_string() };
    assert_eq!(e.describe(), "composite value with no segments for pk");
    let e = SchemaError::MissingOrder { key_name: "dd".to_string(), field_names: vec![] };
    assert_eq!(e.describe(), "contributors without distinct order values for dd");
    let e = SchemaError::AmbiguousKeyOwnership { key_name: "pk".to_string(), contributor_count: 2 };
    assert_eq!(e.describe(), "key ownership is ambiguous for pk");
    let e = SchemaError::StaticSegmentConflict {
        group_name: "type".to_string(),
        field_names: vec![],
    };
    assert_eq!(e.describe(), "segments contributed to static group type");
}

#[test]
fn a_field_may_join_each_group_at_most_once() {
    let mut f = field("sku");
    f.nks.push(NkFieldDecl {
        group_name: Some("SK".to_string()),
        prefix: Some("SKU".to_string()),
        order: Some(0),
    });
    f.nks.push(NkFieldDecl { group_name: None, prefix: None, order: None });
    assert!(f.well_formed());

    f.nks.push(NkFieldDecl { group_name: Some("sku".to_string()), prefix: None, order: None });
    assert!(!f.well_formed());

    let decl = EntityTypeDecl { pk: None, sk: None, nks: vec![], fields: vec![f] };
    assert!(!decl.well_formed());
    let empty = EntityTypeDecl { pk: None, sk: None, nks: vec![], fields: vec![] };
    assert!(empty.well_formed());
}
