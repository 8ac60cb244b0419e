use entity_core::builder::build_schema;
use entity_core::decl::{EntityTypeDecl, FieldDecl, NkFieldDecl, PkFieldDecl, PkStructDecl};
use entity_core::encode::{encode, AttributeMap, EntityInstance, NamedValue};
use entity_core::keys::{
    AttributeValue, CompositeAttributeValue, KeyDef, SchemaV2, Segment,
};
use entity_core::encode::join_with_delimiter;
use entity_core::text::{bool_to_string, u32_to_string, u64_to_string, usize_to_string};
use entity_core::validate::validate_schema;

fn instance(pairs: &[(&str, &str)]) -> EntityInstance {
    EntityInstance {
        fields: pairs
            .iter()
            .map(|(n, v)| NamedValue { name: n.to_string(), value: v.to_string() })
            .collect(),
    }
}

fn get(map: &AttributeMap, name: &str) -> String {
    match map.get(&name.to_string()) {
        Some(v) => v,
        None => panic!("attribute {} missing", name),
    }
}

#[test]
fn sole_prefixed_partition_key_encodes_with_overall_prefix() {
    let mut f = FieldDecl {
        field_name: "account_id".to_string(),
        pk: None,
        sk: None,
        nks: Vec::new(),
    };
    f.pk = Some(PkFieldDecl { prefix: None, order: None });
    let decl = EntityTypeDecl {
        pk: Some(PkStructDecl {
            name: "ACC".to_string(),
            value_prefix: Some("A".to_string()),
            value_suffix: None,
        }),
        sk: None,
        nks: vec![],
        fields: vec![f],
    };
    let schema = build_schema(&decl).unwrap();
    assert!(validate_schema(&schema).is_ok());
    let item = encode(&schema, &instance(&[("account_id", "123")]));
    assert_eq!(get(&item, "ACC"), "A#123");
}

#[test]
fn overall_suffix_is_joined_after_the_segments() {
    let schema = SchemaV2 {
        partition_key_def: KeyDef {
            attribute_name: "pk".to_string(),
            attribute_value: CompositeAttributeValue {
                segments: vec![Segment { struct_field_name: "a".to_string(), prefix: None }],
                prefix: Some("P".to_string()),
                suffix: Some("S".to_string()),
            },
        },
        sort_key_def: None,
        non_key_defs: vec![],
    };
    let item = encode(&schema, &instance(&[("a", "v")]));
    assert_eq!(get(&item, "pk"), "P#v#S");
}

#[test]
fn static_value_is_emitted_verbatim() {
    let schema = SchemaV2 {
        partition_key_def: KeyDef {
            attribute_name: "pk".to_string(),
            attribute_value: CompositeAttributeValue {
                segments: vec![Segment { struct_field_name: "a".to_string(), prefix: None }],
                prefix: None,
                suffix: None,
            },
        },
        sort_key_def: Some(KeyDef {
            attribute_name: "sk".to_string(),
            attribute_value: AttributeValue::Static("count".to_string()),
        }),
        non_key_defs: vec![],
    };
    let item = encode(&schema, &instance(&[("a", "v")]));
    assert_eq!(get(&item, "sk"), "count");
}

#[test]
fn missing_field_contributes_the_empty_string() {
    let schema = SchemaV2 {
        partition_key_def: KeyDef {
            attribute_name: "pk".to_string(),
            attribute_value: CompositeAttributeValue {
                segments: vec![Segment {
                    struct_field_name: "absent".to_string(),
                    prefix: Some("X".to_string()),
                }],
                prefix: None,
                suffix: None,
            },
        },
        sort_key_def: None,
        non_key_defs: vec![],
    };
    let item = encode(&schema, &instance(&[("a", "v")]));
    assert_eq!(get(&item, "pk"), "X#");
}

#[test]
fn encoding_twice_is_byte_identical() {
    let mut f = FieldDecl {
        field_name: "id".to_string(),
        pk: Some(PkFieldDecl { prefix: Some("I".to_string()), order: None }),
        sk: None,
        nks: Vec::new(),
    };
    f.nks.push(NkFieldDecl { group_name: None, prefix: None, order: None });
    let decl = EntityTypeDecl { pk: None, sk: None, nks: vec![], fields: vec![f] };
    let schema = build_schema(&decl).unwrap();
    let inst = instance(&[("id", "77")]);
    let first = encode(&schema, &inst);
    let second = encode(&schema, &inst);
    assert_eq!(get(&first, "id"), "I#77");
    assert_eq!(first.len(), second.len());
    for (a, b) in first.entries.iter().zip(second.entries.iter()) {
        assert_eq!(a.name, b.name);
        assert_eq!(a.value, b.value);
    }
}

#[test]
fn permuting_field_declarations_leaves_the_encoding_unchanged() {
    let a = FieldDecl {
        field_name: "a".to_string(),
        pk: Some(PkFieldDecl { prefix: Some("A".to_string()), order: Some(0) }),
        sk: None,
        nks: vec![NkFieldDecl {
            group_name: Some("g".to_string()),
            prefix: None,
            order: Some(1),
        }],
    };
    let b = FieldDecl {
        field_name: "b".to_string(),
        pk: Some(PkFieldDecl { prefix: Some("B".to_string()), order: Some(1) }),
        sk: None,
        nks: vec![NkFieldDecl {
            group_name: Some("g".to_string()),
            prefix: None,
            order: Some(0),
        }],
    };
    let pk = PkStructDecl { name: "pk".to_string(), value_prefix: None, value_suffix: None };
    let d1 = EntityTypeDecl {
        pk: Some(pk.clone()),
        sk: None,
        nks: vec![],
        fields: vec![a.clone(), b.clone()],
    };
    let d2 = EntityTypeDecl { pk: Some(pk), sk: None, nks: vec![], fields: vec![b, a] };
    let s1 = build_schema(&d1).unwrap();
    let s2 = build_schema(&d2).unwrap();
    let inst = instance(&[("a", "1"), ("b", "2")]);
    let e1 = encode(&s1, &inst);
    let e2 = encode(&s2, &inst);
    assert_eq!(get(&e1, "pk"), "A#1#B#2");
    assert_eq!(get(&e2, "pk"), "A#1#B#2");
    assert_eq!(get(&e1, "g"), "2#1");
    assert_eq!(get(&e2, "g"), "2#1");
}

#[test]
fn splitting_by_the_delimiter_recovers_the_parts() {
    let joined = "x#ATTR3#y";
    let parts: Vec<&str> = joined.split('#').collect();
    assert_eq!(parts, vec!["x", "ATTR3", "y"]);
    assert_eq!(parts.join("#"), joined);
}

#[test]
fn absent_attribute_reads_as_none() {
    let schema = SchemaV2 {
        partition_key_def: KeyDef {
            attribute_name: "pk".to_string(),
            attribute_value: CompositeAttributeValue {
                segments: vec![Segment { struct_field_name: "a".to_string(), prefix: None }],
                prefix: None,
                suffix: None,
            },
        },
        sort_key_def: None,
        non_key_defs: vec![],
    };
    let item = encode(&schema, &instance(&[("a", "v")]));
    assert!(item.get(&"nothing".to_string()).is_none());
    assert_eq!(item.len(), 1);
}

#[test]
fn numbers_and_booleans_render_as_their_literals() {
    assert_eq!(u32_to_string(0), "0");
    assert_eq!(u32_to_string(123), "123");
    assert_eq!(u32_to_string(u32::MAX), "4294967295");
    assert_eq!(u64_to_string(10), "10");
    assert_eq!(u64_to_string(18446744073709551615), "18446744073709551615");
    assert_eq!(usize_to_string(987), "987");
    assert_eq!(bool_to_string(true), "true");
    assert_eq!(bool_to_string(false), "false");
}

#[test]
fn instance_lookup_defaults_to_the_empty_string() {
    let inst = instance(&[("a", "v")]);
    assert_eq!(inst.value_of(&"a".to_string()), "v");
    assert_eq!(inst.value_of(&"other".to_string()), "");
}

#[test]
fn sort_key_uses_its_own_overall_prefix_and_suffix() {
    let schema = SchemaV2 {
        partition_key_def: KeyDef {
            attribute_name: "pk".to_string(),
            attribute_value: CompositeAttributeValue {
                segments: vec![Segment { struct_field_name: "a".to_string(), prefix: None }],
                prefix: Some("PP".to_string()),
                suffix: None,
            },
        },
        sort_key_def: Some(KeyDef {
            attribute_name: "sk".to_string(),
            attribute_value: AttributeValue::Composite(CompositeAttributeValue {
                segments: vec![Segment { struct_field_name: "b".to_string(), prefix: None }],
                prefix: Some("SS".to_string()),
                suffix: Some("ZZ".to_string()),
            }),
        }),
        non_key_defs: vec![],
    };
    let item = encode(&schema, &instance(&[("a", "1"), ("b", "2")]));
    assert_eq!(get(&item, "pk"), "PP#1");
    assert_eq!(get(&item, "sk"), "SS#2#ZZ");
}

#[test]
fn joining_parts_inserts_one_delimiter_between_each_pair() {
    assert_eq!(join_with_delimiter(&Vec::new()), "");
    assert_eq!(join_with_delimiter(&vec!["solo".to_string()]), "solo");
    assert_eq!(
        join_with_delimiter(&vec!["a".to_string(), "".to_string(), "b".to_string()]),
        "a##b"
    );
}

#[test]
fn sole_prefixed_pk_contributor_carries_its_prefix_once() {
    let username = FieldDecl {
        field_name: "username".to_string(),
        pk: Some(PkFieldDecl { prefix: Some("u".to_string()), order: None }),
        sk: None,
        nks: Vec::new(),
    };
    let decl = EntityTypeDecl { pk: None, sk: None, nks: vec![], fields: vec![username] };
    let schema = build_schema(&decl).unwrap();
    let item = encode(&schema, &instance(&[("username", "user001")]));
    assert_eq!(get(&item, "username"), "u#user001");
}

#[test]
fn sole_prefixed_sk_contributor_carries_its_prefix_once() {
    let user = FieldDecl {
        field_name: "username".to_string(),
        pk: Some(PkFieldDecl { prefix: Some("u".to_string()), order: None }),
        sk: None,
        nks: Vec::new(),
    };
    let item_id = FieldDecl {
        field_name: "item_id".to_string(),
        pk: None,
        sk: Some(entity_core::decl::SkFieldDecl {
            prefix: Some("ITEM".to_string()),
            order: None,
        }),
        nks: Vec::new(),
    };
    let decl = EntityTypeDecl { pk: None, sk: None, nks: vec![], fields: vec![user, item_id] };
    let schema = build_schema(&decl).unwrap();
    let item = encode(&schema, &instance(&[("username", "user001"), ("item_id", "999")]));
    assert_eq!(get(&item, "username"), "u#user001");
    assert_eq!(get(&item, "item_id"), "ITEM#999");
}
