use entity_core::builder::build_schema;
use entity_core::encode::AttributeMap;
use entity_core::entities::{
    AccountReceiptSubscription, ComplaintComments, MyEntity2, User, UserCount,
};
use entity_core::error::SchemaError;
use entity_core::keys::{AttributeValue, SchemaV2};
use entity_core::repo::{Entity2Repo, MyEntity2Setters};
use entity_core::traits::{Entity, Entity2};
use entity_core::validate::validate_schema;

fn get(map: &AttributeMap, name: &str) -> String {
    match map.get(&name.to_string()) {
        Some(v) => v,
        None => panic!("attribute {} missing", name),
    }
}

fn assert_same_schema(built: &SchemaV2, registered: &SchemaV2) {
    assert_eq!(built.partition_key_def.attribute_name, registered.partition_key_def.attribute_name);
    let bseg = &built.partition_key_def.attribute_value.segments;
    let rseg = &registered.partition_key_def.attribute_value.segments;
    assert_eq!(bseg.len(), rseg.len());
    for (b, r) in bseg.iter().zip(rseg.iter()) {
        assert_eq!(b.struct_field_name, r.struct_field_name);
        assert_eq!(b.prefix, r.prefix);
    }
    assert_eq!(built.sort_key_def.is_some(), registered.sort_key_def.is_some());
    if let (Some(b), Some(r)) = (&built.sort_key_def, &registered.sort_key_def) {
        assert_eq!(b.attribute_name, r.attribute_name);
        match (&b.attribute_value, &r.attribute_value) {
            (AttributeValue::Static(x), AttributeValue::Static(y)) => assert_eq!(x, y),
            (AttributeValue::Composite(x), AttributeValue::Composite(y)) => {
                assert_eq!(x.segments.len(), y.segments.len());
                for (bs, rs) in x.segments.iter().zip(y.segments.iter()) {
                    assert_eq!(bs.struct_field_name, rs.struct_field_name);
                    assert_eq!(bs.prefix, rs.prefix);
                }
            }
            other => panic!("sort key kinds differ: {:?}", other),
        }
    }
    assert_eq!(built.non_key_defs.len(), registered.non_key_defs.len());
    for (b, r) in built.non_key_defs.iter().zip(registered.non_key_defs.iter()) {
        assert_eq!(b.attribute_name, r.attribute_name);
        match (&b.attribute_value, &r.attribute_value) {
            (AttributeValue::Static(x), AttributeValue::Static(y)) => assert_eq!(x, y),
            (AttributeValue::Composite(x), AttributeValue::Composite(y)) => {
                assert_eq!(x.segments.len(), y.segments.len());
                for (bs, rs) in x.segments.iter().zip(y.segments.iter()) {
                    assert_eq!(bs.struct_field_name, rs.struct_field_name);
                    assert_eq!(bs.prefix, rs.prefix);
                }
            }
            other => panic!("non-key kinds differ: {:?}", other),
        }
    }
}

#[test]
fn complaint_comments_schema_matches_its_declaration() {
    assert!(ComplaintComments::declaration().well_formed());
    let built = build_schema(&ComplaintComments::declaration()).unwrap();
    assert!(validate_schema(&built).is_ok());
    assert_same_schema(&built, &ComplaintComments::get_schema());
}

#[test]
fn user_schema_matches_its_declaration() {
    assert!(User::declaration().well_formed());
    let built = build_schema(&User::declaration()).unwrap();
    assert!(validate_schema(&built).is_ok());
    assert_same_schema(&built, &User::get_schema());
}

#[test]
fn account_receipt_subscription_schema_matches_its_declaration() {
    assert!(AccountReceiptSubscription::declaration().well_formed());
    let built = build_schema(&AccountReceiptSubscription::declaration()).unwrap();
    assert!(validate_schema(&built).is_ok());
    assert_same_schema(&built, &AccountReceiptSubscription::get_schema());
}

#[test]
fn user_count_schema_matches_its_declaration() {
    assert!(UserCount::declaration().well_formed());
    let built = build_schema(&UserCount::declaration()).unwrap();
    assert!(validate_schema(&built).is_ok());
    assert_same_schema(&built, &UserCount::get_schema());
}

#[test]
fn user_sort_key_joins_ordered_contributions() {
    let user = User {
        attribute2: "ss".to_string(),
        last_name: "D".to_string(),
        first_name: "dd".to_string(),
        attribute3: "y".to_string(),
        attribute4: "x".to_string(),
        attribute5: "uu".to_string(),
    };
    let item = user.to_item();
    assert_eq!(get(&item, "dd"), "x#ATTR3#y");
    assert_eq!(get(&item, "last_name"), "ATTR2#ss#FIRSTNAME#dd");
    assert_eq!(get(&item, "type"), "dynamo");
    assert_eq!(get(&item, "attribute5"), "uu");
}

#[test]
fn complaint_comments_group_joins_ordered_prefixed_contributions() {
    let ent = ComplaintComments {
        complaint_id: 123,
        comment_id: 456,
        comment_date: "somedate".to_string(),
        comment_dates: "d1".to_string(),
        attribute2: "d2".to_string(),
    };
    let item = ent.to_item();
    assert_eq!(get(&item, "type2"), "COMMENT_DATES#d1#ATTR2#d2");
    assert_eq!(get(&item, "mypk"), "COMMENT_ID#456#COMMENT_DATE#somedate");
    assert_eq!(get(&item, "combined_sk"), "COMPLAINT_ID#123");
    assert_eq!(get(&item, "type"), "dynamo");
}

#[test]
fn static_group_encodes_verbatim_and_rejects_contributions() {
    let user = User {
        attribute2: String::new(),
        last_name: String::new(),
        first_name: String::new(),
        attribute3: String::new(),
        attribute4: String::new(),
        attribute5: String::new(),
    };
    let item = user.to_item();
    assert_eq!(get(&item, "type"), "dynamo");

    let mut tainted = User::declaration();
    tainted.fields[1].nks.push(entity_core::decl::NkFieldDecl {
        group_name: Some("type".to_string()),
        prefix: None,
        order: None,
    });
    match build_schema(&tainted) {
        Err(SchemaError::StaticSegmentConflict { group_name, .. }) => {
            assert_eq!(group_name, "type");
        }
        other => panic!("expected static-segment conflict, got {:?}", other),
    }
}

#[test]
fn account_receipt_subscription_encodes_prefixed_groups() {
    let sub = AccountReceiptSubscription {
        next_reminder_date: "2025-09-27".to_string(),
        last_reminder_date: "2025-09-20".to_string(),
        subscription_id: 987,
        sku: 999,
        account_id: 123,
    };
    let item = sub.to_item();
    assert_eq!(get(&item, "NextReminderDate"), "2025-09-27");
    assert_eq!(get(&item, "LastReminderDate"), "2025-09-20");
    assert_eq!(get(&item, "SK"), "SKU#999#SUB#987");
    assert_eq!(get(&item, "PK"), "ACC#123");
    assert_eq!(get(&item, "sku"), "999");
}

#[test]
fn user_count_encodes_counters_and_static_sort_key() {
    let count = UserCount { user_id: 123, followers: 3, followings: 1000, posts: 4 };
    let item = count.to_item();
    assert_eq!(get(&item, "pk"), "u#123");
    assert_eq!(get(&item, "sk"), "count");
    assert_eq!(get(&item, "followers"), "3");
    assert_eq!(get(&item, "followings"), "1000");
    assert_eq!(get(&item, "posts"), "4");
}

#[test]
fn my_entity2_keys_come_from_its_accessors() {
    let entity = MyEntity2 {
        pk: "pk_123".to_string(),
        attribute2_hello: true,
        attribute3: "sk_partB".to_string(),
        attribute4: true,
    };
    assert_eq!(entity.get_partition_key(), "pk_123");
    assert_eq!(
        entity.get_sort_key(),
        Some("ATTRIBUTE2_HELLO#true#ATTRIBUTE3#sk_partB".to_string())
    );
}

#[test]
fn my_entity2_default_is_all_empty() {
    let entity = MyEntity2::default();
    assert_eq!(entity.pk, "");
    assert!(!entity.attribute2_hello);
    assert_eq!(entity.attribute3, "");
    assert!(!entity.attribute4);
}

#[test]
fn repo_builders_accumulate_key_and_updates() {
    let repo = Entity2Repo;
    let query = repo.query().where_partition_key("pk_123");
    assert_eq!(query.partition_key, Some("pk_123".to_string()));

    let update = repo
        .update()
        .set_attribute2_hello(true)
        .set_attribute4(false)
        .where_partition_key("pk_123");
    assert_eq!(update.inner.partition_key, Some("pk_123".to_string()));
    assert_eq!(update.inner.updates.len(), 2);
    assert_eq!(update.inner.updates[0].name, "attribute2_hello");
    assert_eq!(update.inner.updates[0].value, "true");
    assert_eq!(update.inner.updates[1].name, "attribute4");
    assert_eq!(update.inner.updates[1].value, "false");

    let update = repo.update().set_attribute3("hello".to_string());
    assert_eq!(update.inner.updates[0].name, "attribute3");
    assert_eq!(update.inner.updates[0].value, "hello");
}

#[test]
fn encoding_an_entity_twice_matches() {
    let ent = ComplaintComments {
        complaint_id: 1,
        comment_id: 2,
        comment_date: "a".to_string(),
        comment_dates: "b".to_string(),
        attribute2: "c".to_string(),
    };
    let first = ent.to_item();
    let second = ent.to_item();
    assert_eq!(first.entries.len(), second.entries.len());
    for (a, b) in first.entries.iter().zip(second.entries.iter()) {
        assert_eq!(a.name, b.name);
        assert_eq!(a.value, b.value);
    }
}

#[test]
fn applying_recorded_updates_changes_only_the_named_fields() {
    let mut entity = MyEntity2 {
        pk: "keep".to_string(),
        attribute2_hello: false,
        attribute3: "old".to_string(),
        attribute4: true,
    };
    let update = entity_core::encode::NamedValue {
        name: "attribute3".to_string(),
        value: "new".to_string(),
    };
    entity.apply_update(&update);
    assert_eq!(entity.attribute3, "new");
    assert_eq!(entity.pk, "keep");
    assert!(!entity.attribute2_hello);
    assert!(entity.attribute4);

    let update = entity_core::encode::NamedValue {
        name: "attribute4".to_string(),
        value: "false".to_string(),
    };
    entity.apply_update(&update);
    assert!(!entity.attribute4);

    let update = entity_core::encode::NamedValue {
        name: "unknown".to_string(),
        value: "x".to_string(),
    };
    entity.apply_update(&update);
    assert_eq!(entity.attribute3, "new");
    assert_eq!(entity.pk, "keep");
}

#[test]
fn replaying_an_assignment_list_applies_later_over_earlier() {
    let mut entity = MyEntity2::default();
    let updates = vec![
        entity_core::encode::NamedValue {
            name: "attribute3".to_string(),
            value: "first".to_string(),
        },
        entity_core::encode::NamedValue {
            name: "attribute2_hello".to_string(),
            value: "true".to_string(),
        },
        entity_core::encode::NamedValue {
            name: "attribute3".to_string(),
            value: "second".to_string(),
        },
    ];
    entity.apply_updates(&updates);
    assert_eq!(entity.attribute3, "second");
    assert!(entity.attribute2_hello);
    assert!(!entity.attribute4);
    assert_eq!(entity.pk, "");
}
