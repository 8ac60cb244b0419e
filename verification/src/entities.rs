//! Entity types registered with the schema compiler: each carries its raw
//! declaration, its resolved schema, and its field-accessor table.

use vstd::prelude::*;
use crate::decl::{
    EntityTypeDecl, EntityTypeDeclV, FieldDecl, FieldDeclV, NkFieldDecl, NkStructDecl,
    NkStructDeclV, PkFieldDecl, PkStructDecl, PkStructDeclV, SkFieldDecl, SkStructDecl,
    SkStructDeclV, ContribV, NkContribV,
};
use crate::encode::{encode, spec_encode, AttributeMap, EntityInstance, NamedValue, NamedValueV};
use crate::keys::{
    AttributeValue, AttributeValueV, CompositeAttributeValue, CompositeAttributeValueV, KeyDef,
    KeyDefV, SchemaV2, SchemaV2V, SegmentV, Segment,
};
use crate::text::{spec_dec, u32_to_string};
use crate::traits::Entity2;

verus! {

//
// ─── COMPLAINT COMMENTS ─────────────────────────────────────────────────────
//
/// A complaint's comment thread: the partition key composes the comment id
/// and date, the sort key carries the complaint id, and two non-key groups
/// hold a static type tag and a composite of dates.
#[derive(Debug)]
pub struct ComplaintComments {
    pub complaint_id: u32,
    pub comment_id: u32,
    pub comment_date: String,
    pub comment_dates: String,
    pub attribute2: String,
}

/// The raw declaration of [`ComplaintComments`].
pub open spec fn complaint_comments_decl() -> EntityTypeDeclV {
    EntityTypeDeclV {
        pk: Some(PkStructDeclV { name: "mypk"@, value_prefix: None, value_suffix: None }),
        sk: Some(
            SkStructDeclV {
                name: "combined_sk"@,
                value_prefix: None,
                value_suffix: None,
                static_value: None,
            },
        ),
        nks: seq![
            NkStructDeclV {
                name: "type"@,
                value_prefix: None,
                value_suffix: None,
                static_value: Some("dynamo"@),
            },
            NkStructDeclV {
                name: "type2"@,
                value_prefix: None,
                value_suffix: None,
                static_value: None,
            },
        ],
        fields: seq![
            FieldDeclV {
                field_name: "complaint_id"@,
                pk: None,
                sk: Some(
                    ContribV {
                        field_name: "complaint_id"@,
                        prefix: Some("COMPLAINT_ID"@),
                        order: Some(0),
                    },
                ),
                nks: Seq::empty(),
            },
            FieldDeclV {
                field_name: "comment_id"@,
                pk: Some(
                    ContribV {
                        field_name: "comment_id"@,
                        prefix: Some("COMMENT_ID"@),
                        order: Some(1),
                    },
                ),
                sk: None,
                nks: Seq::empty(),
            },
            FieldDeclV {
                field_name: "comment_date"@,
                pk: Some(
                    ContribV {
                        field_name: "comment_date"@,
                        prefix: Some("COMMENT_DATE"@),
                        order: Some(2),
                    },
                ),
                sk: None,
                nks: Seq::empty(),
            },
            FieldDeclV {
                field_name: "comment_dates"@,
                pk: None,
                sk: None,
                nks: seq![
                    NkContribV {
                        group_name: "type2"@,
                        part: ContribV {
                            field_name: "comment_dates"@,
                            prefix: Some("COMMENT_DATES"@),
                            order: Some(0),
                        },
                    },
                ],
            },
            FieldDeclV {
                field_name: "attribute2"@,
                pk: None,
                sk: None,
                nks: seq![
                    NkContribV {
                        group_name: "type2"@,
                        part: ContribV {
                            field_name: "attribute2"@,
                            prefix: Some("ATTR2"@),
                            order: Some(1),
                        },
                    },
                ],
            },
        ],
    }
}

/// The resolved schema of [`ComplaintComments`].
pub open spec fn complaint_comments_schema() -> SchemaV2V {
    SchemaV2V {
        partition_key_def: KeyDefV {
            attribute_name: "mypk"@,
            attribute_value: CompositeAttributeValueV {
                segments: seq![
                    SegmentV { struct_field_name: "comment_id"@, prefix: Some("COMMENT_ID"@) },
                    SegmentV {
                        struct_field_name: "comment_date"@,
                        prefix: Some("COMMENT_DATE"@),
                    },
                ],
                prefix: None,
                suffix: None,
            },
        },
        sort_key_def: Some(
            KeyDefV {
                attribute_name: "combined_sk"@,
                attribute_value: AttributeValueV::Composite(
                    CompositeAttributeValueV {
                        segments: seq![
                            SegmentV {
                                struct_field_name: "complaint_id"@,
                                prefix: Some("COMPLAINT_ID"@),
                            },
                        ],
                        prefix: None,
                        suffix: None,
                    },
                ),
            },
        ),
        non_key_defs: seq![
            KeyDefV { attribute_name: "type"@, attribute_value: AttributeValueV::Static("dynamo"@) },
            KeyDefV {
                attribute_name: "type2"@,
                attribute_value: AttributeValueV::Composite(
                    CompositeAttributeValueV {
                        segments: seq![
                            SegmentV {
                                struct_field_name: "comment_dates"@,
                                prefix: Some("COMMENT_DATES"@),
                            },
                            SegmentV { struct_field_name: "attribute2"@, prefix: Some("ATTR2"@) },
                        ],
                        prefix: None,
                        suffix: None,
                    },
                ),
            },
        ],
    }
}

impl ComplaintComments {
    /// The raw declaration this type registers with the schema compiler.
    pub fn declaration() -> (r: EntityTypeDecl)
        ensures
            r@ =~~= complaint_comments_decl(),
    {
        let mut nks: Vec<NkStructDecl> = Vec::new();
        nks.push(
            NkStructDecl {
                name: String::from_str("type"),
                value_prefix: None,
                value_suffix: None,
                static_value: Some(String::from_str("dynamo")),
            },
        );
        nks.push(
            NkStructDecl {
                name: String::from_str("type2"),
                value_prefix: None,
                value_suffix: None,
                static_value: None,
            },
        );
        let mut fields: Vec<FieldDecl> = Vec::new();
        fields.push(
            FieldDecl {
                field_name: String::from_str("complaint_id"),
                pk: None,
                sk: Some(
                    SkFieldDecl { prefix: Some(String::from_str("COMPLAINT_ID")), order: Some(0) },
                ),
                nks: Vec::new(),
            },
        );
        fields.push(
            FieldDecl {
                field_name: String::from_str("comment_id"),
                pk: Some(
                    PkFieldDecl { prefix: Some(String::from_str("COMMENT_ID")), order: Some(1) },
                ),
                sk: None,
                nks: Vec::new(),
            },
        );
        fields.push(
            FieldDecl {
                field_name: String::from_str("comment_date"),
                pk: Some(
                    PkFieldDecl { prefix: Some(String::from_str("COMMENT_DATE")), order: Some(2) },
                ),
                sk: None,
                nks: Vec::new(),
            },
        );
        let mut nk1: Vec<NkFieldDecl> = Vec::new();
        nk1.push(
            NkFieldDecl {
                group_name: Some(String::from_str("type2")),
                prefix: Some(String::from_str("COMMENT_DATES")),
                order: Some(0),
            },
        );
        fields.push(
            FieldDecl {
                field_name: String::from_str("comment_dates"),
                pk: None,
                sk: None,
                nks: nk1,
            },
        );
        let mut nk2: Vec<NkFieldDecl> = Vec::new();
        nk2.push(
            NkFieldDecl {
                group_name: Some(String::from_str("type2")),
                prefix: Some(String::from_str("ATTR2")),
                order: Some(1),
            },
        );
        fields.push(
            FieldDecl {
                field_name: String::from_str("attribute2"),
                pk: None,
                sk: None,
                nks: nk2,
            },
        );
        let r = EntityTypeDecl {
            pk: Some(
                PkStructDecl {
                    name: String::from_str("mypk"),
                    value_prefix: None,
                    value_suffix: None,
                },
            ),
            sk: Some(
                SkStructDecl {
                    name: String::from_str("combined_sk"),
                    value_prefix: None,
                    value_suffix: None,
                    static_value: None,
                },
            ),
            nks,
            fields,
        };
        proof {
            assert(r@ =~~= complaint_comments_decl());
        }
        r
    }

    /// This instance's field-accessor table.
    pub fn instance(&self) -> (r: EntityInstance)
        ensures
            r@ =~~= self.spec_instance(),
    {
        let mut fields: Vec<NamedValue> = Vec::new();
        fields.push(
            NamedValue {
                name: String::from_str("complaint_id"),
                value: u32_to_string(self.complaint_id),
            },
        );
        fields.push(
            NamedValue {
                name: String::from_str("comment_id"),
                value: u32_to_string(self.comment_id),
            },
        );
        fields.push(
            NamedValue {
                name: String::from_str("comment_date"),
                value: self.comment_date.clone(),
            },
        );
        fields.push(
            NamedValue {
                name: String::from_str("comment_dates"),
                value: self.comment_dates.clone(),
            },
        );
        fields.push(
            NamedValue { name: String::from_str("attribute2"), value: self.attribute2.clone() },
        );
        EntityInstance { fields }
    }
}

impl Entity2 for ComplaintComments {
    open spec fn spec_schema() -> SchemaV2V {
        complaint_comments_schema()
    }

    open spec fn spec_instance(&self) -> Seq<NamedValueV> {
        seq![
            NamedValueV { name: "complaint_id"@, value: spec_dec(self.complaint_id as nat) },
            NamedValueV { name: "comment_id"@, value: spec_dec(self.comment_id as nat) },
            NamedValueV { name: "comment_date"@, value: self.comment_date@ },
            NamedValueV { name: "comment_dates"@, value: self.comment_dates@ },
            NamedValueV { name: "attribute2"@, value: self.attribute2@ },
        ]
    }

    fn get_schema() -> (r: SchemaV2) {
        let mut pk_segments: Vec<Segment> = Vec::new();
        pk_segments.push(
            Segment {
                struct_field_name: String::from_str("comment_id"),
                prefix: Some(String::from_str("COMMENT_ID")),
            },
        );
        pk_segments.push(
            Segment {
                struct_field_name: String::from_str("comment_date"),
                prefix: Some(String::from_str("COMMENT_DATE")),
            },
        );
        let mut sk_segments: Vec<Segment> = Vec::new();
        sk_segments.push(
            Segment {
                struct_field_name: String::from_str("complaint_id"),
                prefix: Some(String::from_str("COMPLAINT_ID")),
            },
        );
        let mut type2_segments: Vec<Segment> = Vec::new();
        type2_segments.push(
            Segment {
                struct_field_name: String::from_str("comment_dates"),
                prefix: Some(String::from_str("COMMENT_DATES")),
            },
        );
        type2_segments.push(
            Segment {
                struct_field_name: String::from_str("attribute2"),
                prefix: Some(String::from_str("ATTR2")),
            },
        );
        let mut non_key_defs: Vec<KeyDef<AttributeValue>> = Vec::new();
        non_key_defs.push(
            KeyDef {
                attribute_name: String::from_str("type"),
                attribute_value: AttributeValue::Static(String::from_str("dynamo")),
            },
        );
        non_key_defs.push(
            KeyDef {
                attribute_name: String::from_str("type2"),
                attribute_value: AttributeValue::Composite(
                    CompositeAttributeValue {
                        segments: type2_segments,
                        prefix: None,
                        suffix: None,
                    },
                ),
            },
        );
        let r = SchemaV2 {
            partition_key_def: KeyDef {
                attribute_name: String::from_str("mypk"),
                attribute_value: CompositeAttributeValue {
                    segments: pk_segments,
                    prefix: None,
                    suffix: None,
                },
            },
            sort_key_def: Some(
                KeyDef {
                    attribute_name: String::from_str("combined_sk"),
                    attribute_value: AttributeValue::Composite(
                        CompositeAttributeValue {
                            segments: sk_segments,
                            prefix: None,
                            suffix: None,
                        },
                    ),
                },
            ),
            non_key_defs,
        };
        proof {
            assert(r@ =~~= complaint_comments_schema());
        }
        r
    }

    fn to_item(&self) -> (r: AttributeMap) {
        let schema = Self::get_schema();
        let inst = self.instance();
        encode(&schema, &inst)
    }
}

//
// ─── USER ───────────────────────────────────────────────────────────────────
//
/// A user record: names compose the partition key, attributes compose the
/// sort key, and a static type tag rides along as a non-key attribute.
#[derive(Debug)]
pub struct User {
    pub attribute2: String,
    pub last_name: String,
    pub first_name: String,
    pub attribute3: String,
    pub attribute4: String,
    pub attribute5: String,
}

/// The raw declaration of [`User`].
pub open spec fn user_decl() -> EntityTypeDeclV {
    EntityTypeDeclV {
        pk: Some(PkStructDeclV { name: "last_name"@, value_prefix: None, value_suffix: None }),
        sk: Some(
            SkStructDeclV {
                name: "dd"@,
                value_prefix: None,
                value_suffix: None,
                static_value: None,
            },
        ),
        nks: seq![
            NkStructDeclV {
                name: "type"@,
                value_prefix: None,
                value_suffix: None,
                static_value: Some("dynamo"@),
            },
        ],
        fields: seq![
            FieldDeclV {
                field_name: "attribute2"@,
                pk: Some(
                    ContribV { field_name: "attribute2"@, prefix: Some("ATTR2"@), order: Some(0) },
                ),
                sk: None,
                nks: Seq::empty(),
            },
            FieldDeclV { field_name: "last_name"@, pk: None, sk: None, nks: Seq::empty() },
            FieldDeclV {
                field_name: "first_name"@,
                pk: Some(
                    ContribV {
                        field_name: "first_name"@,
                        prefix: Some("FIRSTNAME"@),
                        order: Some(1),
                    },
                ),
                sk: None,
                nks: Seq::empty(),
            },
            FieldDeclV {
                field_name: "attribute3"@,
                pk: None,
                sk: Some(
                    ContribV { field_name: "attribute3"@, prefix: Some("ATTR3"@), order: Some(1) },
                ),
                nks: Seq::empty(),
            },
            FieldDeclV {
                field_name: "attribute4"@,
                pk: None,
                sk: Some(ContribV { field_name: "attribute4"@, prefix: None, order: Some(0) }),
                nks: Seq::empty(),
            },
            FieldDeclV {
                field_name: "attribute5"@,
                pk: None,
                sk: None,
                nks: seq![
                    NkContribV {
                        group_name: "attribute5"@,
                        part: ContribV { field_name: "attribute5"@, prefix: None, order: None },
                    },
                ],
            },
        ],
    }
}

/// The resolved schema of [`User`].
pub open spec fn user_schema() -> SchemaV2V {
    SchemaV2V {
        partition_key_def: KeyDefV {
            attribute_name: "last_name"@,
            attribute_value: CompositeAttributeValueV {
                segments: seq![
                    SegmentV { struct_field_name: "attribute2"@, prefix: Some("ATTR2"@) },
                    SegmentV { struct_field_name: "first_name"@, prefix: Some("FIRSTNAME"@) },
                ],
                prefix: None,
                suffix: None,
            },
        },
        sort_key_def: Some(
            KeyDefV {
                attribute_name: "dd"@,
                attribute_value: AttributeValueV::Composite(
                    CompositeAttributeValueV {
                        segments: seq![
                            SegmentV { struct_field_name: "attribute4"@, prefix: None },
                            SegmentV { struct_field_name: "attribute3"@, prefix: Some("ATTR3"@) },
                        ],
                        prefix: None,
                        suffix: None,
                    },
                ),
            },
        ),
        non_key_defs: seq![
            KeyDefV { attribute_name: "type"@, attribute_value: AttributeValueV::Static("dynamo"@) },
            KeyDefV {
                attribute_name: "attribute5"@,
                attribute_value: AttributeValueV::Composite(
                    CompositeAttributeValueV {
                        segments: seq![
                            SegmentV { struct_field_name: "attribute5"@, prefix: None },
                        ],
                        prefix: None,
                        suffix: None,
                    },
                ),
            },
        ],
    }
}

impl User {
    /// The raw declaration this type registers with the schema compiler.
    pub fn declaration() -> (r: EntityTypeDecl)
        ensures
            r@ =~~= user_decl(),
    {
        let mut nks: Vec<NkStructDecl> = Vec::new();
        nks.push(
            NkStructDecl {
                name: String::from_str("type"),
                value_prefix: None,
                value_suffix: None,
                static_value: Some(String::from_str("dynamo")),
            },
        );
        let mut fields: Vec<FieldDecl> = Vec::new();
        fields.push(
            FieldDecl {
                field_name: String::from_str("attribute2"),
                pk: Some(PkFieldDecl { prefix: Some(String::from_str("ATTR2")), order: Some(0) }),
                sk: None,
                nks: Vec::new(),
            },
        );
        fields.push(
            FieldDecl {
                field_name: String::from_str("last_name"),
                pk: None,
                sk: None,
                nks: Vec::new(),
            },
        );
        fields.push(
            FieldDecl {
                field_name: String::from_str("first_name"),
                pk: Some(
                    PkFieldDecl { prefix: Some(String::from_str("FIRSTNAME")), order: Some(1) },
                ),
                sk: None,
                nks: Vec::new(),
            },
        );
        fields.push(
            FieldDecl {
                field_name: String::from_str("attribute3"),
                pk: None,
                sk: Some(SkFieldDecl { prefix: Some(String::from_str("ATTR3")), order: Some(1) }),
                nks: Vec::new(),
            },
        );
        fields.push(
            FieldDecl {
                field_name: String::from_str("attribute4"),
                pk: None,
                sk: Some(SkFieldDecl { prefix: None, order: Some(0) }),
                nks: Vec::new(),
            },
        );
        let mut nk5: Vec<NkFieldDecl> = Vec::new();
        nk5.push(NkFieldDecl { group_name: None, prefix: None, order: None });
        fields.push(
            FieldDecl {
                field_name: String::from_str("attribute5"),
                pk: None,
                sk: None,
                nks: nk5,
            },
        );
        let r = EntityTypeDecl {
            pk: Some(
                PkStructDecl {
                    name: String::from_str("last_name"),
                    value_prefix: None,
                    value_suffix: None,
                },
            ),
            sk: Some(
                SkStructDecl {
                    name: String::from_str("dd"),
                    value_prefix: None,
                    value_suffix: None,
                    static_value: None,
                },
            ),
            nks,
            fields,
        };
        proof {
            assert(r@ =~~= user_decl());
        }
        r
    }

    /// This instance's field-accessor table.
    pub fn instance(&self) -> (r: EntityInstance)
        ensures
            r@ =~~= self.spec_instance(),
    {
        let mut fields: Vec<NamedValue> = Vec::new();
        fields.push(
            NamedValue { name: String::from_str("attribute2"), value: self.attribute2.clone() },
        );
        fields.push(
            NamedValue { name: String::from_str("last_name"), value: self.last_name.clone() },
        );
        fields.push(
            NamedValue { name: String::from_str("first_name"), value: self.first_name.clone() },
        );
        fields.push(
            NamedValue { name: String::from_str("attribute3"), value: self.attribute3.clone() },
        );
        fields.push(
            NamedValue { name: String::from_str("attribute4"), value: self.attribute4.clone() },
        );
        fields.push(
            NamedValue { name: String::from_str("attribute5"), value: self.attribute5.clone() },
        );
        EntityInstance { fields }
    }
}

impl Entity2 for User {
    open spec fn spec_schema() -> SchemaV2V {
        user_schema()
    }

    open spec fn spec_instance(&self) -> Seq<NamedValueV> {
        seq![
            NamedValueV { name: "attribute2"@, value: self.attribute2@ },
            NamedValueV { name: "last_name"@, value: self.last_name@ },
            NamedValueV { name: "first_name"@, value: self.first_name@ },
            NamedValueV { name: "attribute3"@, value: self.attribute3@ },
            NamedValueV { name: "attribute4"@, value: self.attribute4@ },
            NamedValueV { name: "attribute5"@, value: self.attribute5@ },
        ]
    }

    fn get_schema() -> (r: SchemaV2) {
        let mut pk_segments: Vec<Segment> = Vec::new();
        pk_segments.push(
            Segment {
                struct_field_name: String::from_str("attribute2"),
                prefix: Some(String::from_str("ATTR2")),
            },
        );
        pk_segments.push(
            Segment {
                struct_field_name: String::from_str("first_name"),
                prefix: Some(String::from_str("FIRSTNAME")),
            },
        );
        let mut sk_segments: Vec<Segment> = Vec::new();
        sk_segments.push(
            Segment { struct_field_name: String::from_str("attribute4"), prefix: None },
        );
        sk_segments.push(
            Segment {
                struct_field_name: String::from_str("attribute3"),
                prefix: Some(String::from_str("ATTR3")),
            },
        );
        let mut a5_segments: Vec<Segment> = Vec::new();
        a5_segments.push(
            Segment { struct_field_name: String::from_str("attribute5"), prefix: None },
        );
        let mut non_key_defs: Vec<KeyDef<AttributeValue>> = Vec::new();
        non_key_defs.push(
            KeyDef {
                attribute_name: String::from_str("type"),
                attribute_value: AttributeValue::Static(String::from_str("dynamo")),
            },
        );
        non_key_defs.push(
            KeyDef {
                attribute_name: String::from_str("attribute5"),
                attribute_value: AttributeValue::Composite(
                    CompositeAttributeValue { segments: a5_segments, prefix: None, suffix: None },
                ),
            },
        );
        let r = SchemaV2 {
            partition_key_def: KeyDef {
                attribute_name: String::from_str("last_name"),
                attribute_value: CompositeAttributeValue {
                    segments: pk_segments,
                    prefix: None,
                    suffix: None,
                },
            },
            sort_key_def: Some(
                KeyDef {
                    attribute_name: String::from_str("dd"),
                    attribute_value: AttributeValue::Composite(
                        CompositeAttributeValue {
                            segments: sk_segments,
                            prefix: None,
                            suffix: None,
                        },
                    ),
                },
            ),
            non_key_defs,
        };
        proof {
            assert(r@ =~~= user_schema());
        }
        r
    }

    fn to_item(&self) -> (r: AttributeMap) {
        let schema = Self::get_schema();
        let inst = self.instance();
        encode(&schema, &inst)
    }
}

//
// ─── ACCOUNT RECEIPT SUBSCRIPTION ───────────────────────────────────────────
//
/// A recurring-payment reminder: date fields own the keys, while composite
/// non-key groups rebuild the storage key pair out of prefixed ids.
#[derive(Debug)]
pub struct AccountReceiptSubscription {
    pub next_reminder_date: String,
    pub last_reminder_date: String,
    pub subscription_id: u32,
    pub sku: u32,
    pub account_id: u32,
}

/// The raw declaration of [`AccountReceiptSubscription`].
pub open spec fn account_receipt_subscription_decl() -> EntityTypeDeclV {
    EntityTypeDeclV {
        pk: Some(
            PkStructDeclV { name: "NextReminderDate"@, value_prefix: None, value_suffix: None },
        ),
        sk: Some(
            SkStructDeclV {
                name: "LastReminderDate"@,
                value_prefix: None,
                value_suffix: None,
                static_value: None,
            },
        ),
        nks: seq![
            NkStructDeclV {
                name: "SK"@,
                value_prefix: None,
                value_suffix: None,
                static_value: None,
            },
            NkStructDeclV {
                name: "PK"@,
                value_prefix: None,
                value_suffix: None,
                static_value: None,
            },
        ],
        fields: seq![
            FieldDeclV {
                field_name: "next_reminder_date"@,
                pk: Some(ContribV { field_name: "next_reminder_date"@, prefix: None, order: None }),
                sk: None,
                nks: Seq::empty(),
            },
            FieldDeclV {
                field_name: "last_reminder_date"@,
                pk: None,
                sk: Some(ContribV { field_name: "last_reminder_date"@, prefix: None, order: None }),
                nks: Seq::empty(),
            },
            FieldDeclV {
                field_name: "subscription_id"@,
                pk: None,
                sk: None,
                nks: seq![
                    NkContribV {
                        group_name: "SK"@,
                        part: ContribV {
                            field_name: "subscription_id"@,
                            prefix: Some("SUB"@),
                            order: Some(1),
                        },
                    },
                ],
            },
            FieldDeclV {
                field_name: "sku"@,
                pk: None,
                sk: None,
                nks: seq![
                    NkContribV {
                        group_name: "SK"@,
                        part: ContribV {
                            field_name: "sku"@,
                            prefix: Some("SKU"@),
                            order: Some(0),
                        },
                    },
                    NkContribV {
                        group_name: "sku"@,
                        part: ContribV { field_name: "sku"@, prefix: None, order: None },
                    },
                ],
            },
            FieldDeclV {
                field_name: "account_id"@,
                pk: None,
                sk: None,
                nks: seq![
                    NkContribV {
                        group_name: "PK"@,
                        part: ContribV {
                            field_name: "account_id"@,
                            prefix: Some("ACC"@),
                            order: None,
                        },
                    },
                ],
            },
        ],
    }
}

/// The resolved schema of [`AccountReceiptSubscription`].
pub open spec fn account_receipt_subscription_schema() -> SchemaV2V {
    SchemaV2V {
        partition_key_def: KeyDefV {
            attribute_name: "NextReminderDate"@,
            attribute_value: CompositeAttributeValueV {
                segments: seq![
                    SegmentV { struct_field_name: "next_reminder_date"@, prefix: None },
                ],
                prefix: None,
                suffix: None,
            },
        },
        sort_key_def: Some(
            KeyDefV {
                attribute_name: "LastReminderDate"@,
                attribute_value: AttributeValueV::Composite(
                    CompositeAttributeValueV {
                        segments: seq![
                            SegmentV { struct_field_name: "last_reminder_date"@, prefix: None },
                        ],
                        prefix: None,
                        suffix: None,
                    },
                ),
            },
        ),
        non_key_defs: seq![
            KeyDefV {
                attribute_name: "SK"@,
                attribute_value: AttributeValueV::Composite(
                    CompositeAttributeValueV {
                        segments: seq![
                            SegmentV { struct_field_name: "sku"@, prefix: Some("SKU"@) },
                            SegmentV { struct_field_name: "subscription_id"@, prefix: Some("SUB"@) },
                        ],
                        prefix: None,
                        suffix: None,
                    },
                ),
            },
            KeyDefV {
                attribute_name: "PK"@,
                attribute_value: AttributeValueV::Composite(
                    CompositeAttributeValueV {
                        segments: seq![
                            SegmentV { struct_field_name: "account_id"@, prefix: Some("ACC"@) },
                        ],
                        prefix: None,
                        suffix: None,
                    },
                ),
            },
            KeyDefV {
                attribute_name: "sku"@,
                attribute_value: AttributeValueV::Composite(
                    CompositeAttributeValueV {
                        segments: seq![SegmentV { struct_field_name: "sku"@, prefix: None }],
                        prefix: None,
                        suffix: None,
                    },
                ),
            },
        ],
    }
}

impl AccountReceiptSubscription {
    /// The raw declaration this type registers with the schema compiler.
    pub fn declaration() -> (r: EntityTypeDecl)
        ensures
            r@ =~~= account_receipt_subscription_decl(),
    {
        let mut nks: Vec<NkStructDecl> = Vec::new();
        nks.push(
            NkStructDecl {
                name: String::from_str("SK"),
                value_prefix: None,
                value_suffix: None,
                static_value: None,
            },
        );
        nks.push(
            NkStructDecl {
                name: String::from_str("PK"),
                value_prefix: None,
                value_suffix: None,
                static_value: None,
            },
        );
        let mut fields: Vec<FieldDecl> = Vec::new();
        fields.push(
            FieldDecl {
                field_name: String::from_str("next_reminder_date"),
                pk: Some(PkFieldDecl { prefix: None, order: None }),
                sk: None,
                nks: Vec::new(),
            },
        );
        fields.push(
            FieldDecl {
                field_name: String::from_str("last_reminder_date"),
                pk: None,
                sk: Some(SkFieldDecl { prefix: None, order: None }),
                nks: Vec::new(),
            },
        );
        let mut nk_sub: Vec<NkFieldDecl> = Vec::new();
        nk_sub.push(
            NkFieldDecl {
                group_name: Some(String::from_str("SK")),
                prefix: Some(String::from_str("SUB")),
                order: Some(1),
            },
        );
        fields.push(
            FieldDecl {
                field_name: String::from_str("subscription_id"),
                pk: None,
                sk: None,
                nks: nk_sub,
            },
        );
        let mut nk_sku: Vec<NkFieldDecl> = Vec::new();
        nk_sku.push(
            NkFieldDecl {
                group_name: Some(String::from_str("SK")),
                prefix: Some(String::from_str("SKU")),
                order: Some(0),
            },
        );
        nk_sku.push(NkFieldDecl { group_name: None, prefix: None, order: None });
        fields.push(
            FieldDecl { field_name: String::from_str("sku"), pk: None, sk: None, nks: nk_sku },
        );
        let mut nk_acc: Vec<NkFieldDecl> = Vec::new();
        nk_acc.push(
            NkFieldDecl {
                group_name: Some(String::from_str("PK")),
                prefix: Some(String::from_str("ACC")),
                order: None,
            },
        );
        fields.push(
            FieldDecl {
                field_name: String::from_str("account_id"),
                pk: None,
                sk: None,
                nks: nk_acc,
            },
        );
        let r = EntityTypeDecl {
            pk: Some(
                PkStructDecl {
                    name: String::from_str("NextReminderDate"),
                    value_prefix: None,
                    value_suffix: None,
                },
            ),
            sk: Some(
                SkStructDecl {
                    name: String::from_str("LastReminderDate"),
                    value_prefix: None,
                    value_suffix: None,
                    static_value: None,
                },
            ),
            nks,
            fields,
        };
        proof {
            assert(r@ =~~= account_receipt_subscription_decl());
        }
        r
    }

    /// This instance's field-accessor table.
    pub fn instance(&self) -> (r: EntityInstance)
        ensures
            r@ =~~= self.spec_instance(),
    {
        let mut fields: Vec<NamedValue> = Vec::new();
        fields.push(
            NamedValue {
                name: String::from_str("next_reminder_date"),
                value: self.next_reminder_date.clone(),
            },
        );
        fields.push(
            NamedValue {
                name: String::from_str("last_reminder_date"),
                value: self.last_reminder_date.clone(),
            },
        );
        fields.push(
            NamedValue {
                name: String::from_str("subscription_id"),
                value: u32_to_string(self.subscription_id),
            },
        );
        fields.push(NamedValue { name: String::from_str("sku"), value: u32_to_string(self.sku) });
        fields.push(
            NamedValue {
                name: String::from_str("account_id"),
                value: u32_to_string(self.account_id),
            },
        );
        EntityInstance { fields }
    }
}

impl Entity2 for AccountReceiptSubscription {
    open spec fn spec_schema() -> SchemaV2V {
        account_receipt_subscription_schema()
    }

    open spec fn spec_instance(&self) -> Seq<NamedValueV> {
        seq![
            NamedValueV { name: "next_reminder_date"@, value: self.next_reminder_date@ },
            NamedValueV { name: "last_reminder_date"@, value: self.last_reminder_date@ },
            NamedValueV { name: "subscription_id"@, value: spec_dec(self.subscription_id as nat) },
            NamedValueV { name: "sku"@, value: spec_dec(self.sku as nat) },
            NamedValueV { name: "account_id"@, value: spec_dec(self.account_id as nat) },
        ]
    }

    fn get_schema() -> (r: SchemaV2) {
        let mut pk_segments: Vec<Segment> = Vec::new();
        pk_segments.push(
            Segment { struct_field_name: String::from_str("next_reminder_date"), prefix: None },
        );
        let mut sk_segments: Vec<Segment> = Vec::new();
        sk_segments.push(
            Segment { struct_field_name: String::from_str("last_reminder_date"), prefix: None },
        );
        let mut sk_group: Vec<Segment> = Vec::new();
        sk_group.push(
            Segment {
                struct_field_name: String::from_str("sku"),
                prefix: Some(String::from_str("SKU")),
            },
        );
        sk_group.push(
            Segment {
                struct_field_name: String::from_str("subscription_id"),
                prefix: Some(String::from_str("SUB")),
            },
        );
        let mut pk_group: Vec<Segment> = Vec::new();
        pk_group.push(
            Segment {
                struct_field_name: String::from_str("account_id"),
                prefix: Some(String::from_str("ACC")),
            },
        );
        let mut sku_group: Vec<Segment> = Vec::new();
        sku_group.push(Segment { struct_field_name: String::from_str("sku"), prefix: None });
        let mut non_key_defs: Vec<KeyDef<AttributeValue>> = Vec::new();
        non_key_defs.push(
            KeyDef {
                attribute_name: String::from_str("SK"),
                attribute_value: AttributeValue::Composite(
                    CompositeAttributeValue { segments: sk_group, prefix: None, suffix: None },
                ),
            },
        );
        non_key_defs.push(
            KeyDef {
                attribute_name: String::from_str("PK"),
                attribute_value: AttributeValue::Composite(
                    CompositeAttributeValue { segments: pk_group, prefix: None, suffix: None },
                ),
            },
        );
        non_key_defs.push(
            KeyDef {
                attribute_name: String::from_str("sku"),
                attribute_value: AttributeValue::Composite(
                    CompositeAttributeValue { segments: sku_group, prefix: None, suffix: None },
                ),
            },
        );
        let r = SchemaV2 {
            partition_key_def: KeyDef {
                attribute_name: String::from_str("NextReminderDate"),
                attribute_value: CompositeAttributeValue {
                    segments: pk_segments,
                    prefix: None,
                    suffix: None,
                },
            },
            sort_key_def: Some(
                KeyDef {
                    attribute_name: String::from_str("LastReminderDate"),
                    attribute_value: AttributeValue::Composite(
                        CompositeAttributeValue {
                            segments: sk_segments,
                            prefix: None,
                            suffix: None,
                        },
                    ),
                },
            ),
            non_key_defs,
        };
        proof {
            assert(r@ =~~= account_receipt_subscription_schema());
        }
        r
    }

    fn to_item(&self) -> (r: AttributeMap) {
        let schema = Self::get_schema();
        let inst = self.instance();
        encode(&schema, &inst)
    }
}

//
// ─── USER COUNT ─────────────────────────────────────────────────────────────
//
/// A user's counters: one prefixed id as the partition key, a static sort
/// key, and each counter as its own single-field non-key attribute.
#[derive(Debug)]
pub struct UserCount {
    pub user_id: u32,
    pub followers: usize,
    pub followings: usize,
    pub posts: usize,
}

/// The raw declaration of [`UserCount`].
pub open spec fn user_count_decl() -> EntityTypeDeclV {
    EntityTypeDeclV {
        pk: Some(PkStructDeclV { name: "pk"@, value_prefix: None, value_suffix: None }),
        sk: Some(
            SkStructDeclV {
                name: "sk"@,
                value_prefix: None,
                value_suffix: None,
                static_value: Some("count"@),
            },
        ),
        nks: Seq::empty(),
        fields: seq![
            FieldDeclV {
                field_name: "user_id"@,
                pk: Some(ContribV { field_name: "user_id"@, prefix: Some("u"@), order: None }),
                sk: None,
                nks: Seq::empty(),
            },
            FieldDeclV {
                field_name: "followers"@,
                pk: None,
                sk: None,
                nks: seq![
                    NkContribV {
                        group_name: "followers"@,
                        part: ContribV { field_name: "followers"@, prefix: None, order: None },
                    },
                ],
            },
            FieldDeclV {
                field_name: "followings"@,
                pk: None,
                sk: None,
                nks: seq![
                    NkContribV {
                        group_name: "followings"@,
                        part: ContribV { field_name: "followings"@, prefix: None, order: None },
                    },
                ],
            },
            FieldDeclV {
                field_name: "posts"@,
                pk: None,
                sk: None,
                nks: seq![
                    NkContribV {
                        group_name: "posts"@,
                        part: ContribV { field_name: "posts"@, prefix: None, order: None },
                    },
                ],
            },
        ],
    }
}

/// The resolved schema of [`UserCount`].
pub open spec fn user_count_schema() -> SchemaV2V {
    SchemaV2V {
        partition_key_def: KeyDefV {
            attribute_name: "pk"@,
            attribute_value: CompositeAttributeValueV {
                segments: seq![SegmentV { struct_field_name: "user_id"@, prefix: Some("u"@) }],
                prefix: None,
                suffix: None,
            },
        },
        sort_key_def: Some(
            KeyDefV { attribute_name: "sk"@, attribute_value: AttributeValueV::Static("count"@) },
        ),
        non_key_defs: seq![
            KeyDefV {
                attribute_name: "followers"@,
                attribute_value: AttributeValueV::Composite(
                    CompositeAttributeValueV {
                        segments: seq![SegmentV { struct_field_name: "followers"@, prefix: None }],
                        prefix: None,
                        suffix: None,
                    },
                ),
            },
            KeyDefV {
                attribute_name: "followings"@,
                attribute_value: AttributeValueV::Composite(
                    CompositeAttributeValueV {
                        segments: seq![
                            SegmentV { struct_field_name: "followings"@, prefix: None },
                        ],
                        prefix: None,
                        suffix: None,
                    },
                ),
            },
            KeyDefV {
                attribute_name: "posts"@,
                attribute_value: AttributeValueV::Composite(
                    CompositeAttributeValueV {
                        segments: seq![SegmentV { struct_field_name: "posts"@, prefix: None }],
                        prefix: None,
                        suffix: None,
                    },
                ),
            },
        ],
    }
}

impl UserCount {
    /// The raw declaration this type registers with the schema compiler.
    pub fn declaration() -> (r: EntityTypeDecl)
        ensures
            r@ =~~= user_count_decl(),
    {
        let mut fields: Vec<FieldDecl> = Vec::new();
        fields.push(
            FieldDecl {
                field_name: String::from_str("user_id"),
                pk: Some(PkFieldDecl { prefix: Some(String::from_str("u")), order: None }),
                sk: None,
                nks: Vec::new(),
            },
        );
        let mut nk_followers: Vec<NkFieldDecl> = Vec::new();
        nk_followers.push(NkFieldDecl { group_name: None, prefix: None, order: None });
        fields.push(
            FieldDecl {
                field_name: String::from_str("followers"),
                pk: None,
                sk: None,
                nks: nk_followers,
            },
        );
        let mut nk_followings: Vec<NkFieldDecl> = Vec::new();
        nk_followings.push(NkFieldDecl { group_name: None, prefix: None, order: None });
        fields.push(
            FieldDecl {
                field_name: String::from_str("followings"),
                pk: None,
                sk: None,
                nks: nk_followings,
            },
        );
        let mut nk_posts: Vec<NkFieldDecl> = Vec::new();
        nk_posts.push(NkFieldDecl { group_name: None, prefix: None, order: None });
        fields.push(
            FieldDecl {
                field_name: String::from_str("posts"),
                pk: None,
                sk: None,
                nks: nk_posts,
            },
        );
        let r = EntityTypeDecl {
            pk: Some(
                PkStructDecl {
                    name: String::from_str("pk"),
                    value_prefix: None,
                    value_suffix: None,
                },
            ),
            sk: Some(
                SkStructDecl {
                    name: String::from_str("sk"),
                    value_prefix: None,
                    value_suffix: None,
                    static_value: Some(String::from_str("count")),
                },
            ),
            nks: Vec::new(),
            fields,
        };
        proof {
            assert(r@ =~~= user_count_decl());
        }
        r
    }

    /// This instance's field-accessor table.
    pub fn instance(&self) -> (r: EntityInstance)
        ensures
            r@ =~~= self.spec_instance(),
    {
        let mut fields: Vec<NamedValue> = Vec::new();
        fields.push(
            NamedValue { name: String::from_str("user_id"), value: u32_to_string(self.user_id) },
        );
        fields.push(
            NamedValue {
                name: String::from_str("followers"),
                value: crate::text::usize_to_string(self.followers),
            },
        );
        fields.push(
            NamedValue {
                name: String::from_str("followings"),
                value: crate::text::usize_to_string(self.followings),
            },
        );
        fields.push(
            NamedValue {
                name: String::from_str("posts"),
                value: crate::text::usize_to_string(self.posts),
            },
        );
        EntityInstance { fields }
    }
}

impl Entity2 for UserCount {
    open spec fn spec_schema() -> SchemaV2V {
        user_count_schema()
    }

    open spec fn spec_instance(&self) -> Seq<NamedValueV> {
        seq![
            NamedValueV { name: "user_id"@, value: spec_dec(self.user_id as nat) },
            NamedValueV { name: "followers"@, value: spec_dec(self.followers as nat) },
            NamedValueV { name: "followings"@, value: spec_dec(self.followings as nat) },
            NamedValueV { name: "posts"@, value: spec_dec(self.posts as nat) },
        ]
    }

    fn get_schema() -> (r: SchemaV2) {
        let mut pk_segments: Vec<Segment> = Vec::new();
        pk_segments.push(
            Segment {
                struct_field_name: String::from_str("user_id"),
                prefix: Some(String::from_str("u")),
            },
        );
        let mut followers_segments: Vec<Segment> = Vec::new();
        followers_segments.push(
            Segment { struct_field_name: String::from_str("followers"), prefix: None },
        );
        let mut followings_segments: Vec<Segment> = Vec::new();
        followings_segments.push(
            Segment { struct_field_name: String::from_str("followings"), prefix: None },
        );
        let mut posts_segments: Vec<Segment> = Vec::new();
        posts_segments.push(
            Segment { struct_field_name: String::from_str("posts"), prefix: None },
        );
        let mut non_key_defs: Vec<KeyDef<AttributeValue>> = Vec::new();
        non_key_defs.push(
            KeyDef {
                attribute_name: String::from_str("followers"),
                attribute_value: AttributeValue::Composite(
                    CompositeAttributeValue {
                        segments: followers_segments,
                        prefix: None,
                        suffix: None,
                    },
                ),
            },
        );
        non_key_defs.push(
            KeyDef {
                attribute_name: String::from_str("followings"),
                attribute_value: AttributeValue::Composite(
                    CompositeAttributeValue {
                        segments: followings_segments,
                        prefix: None,
                        suffix: None,
                    },
                ),
            },
        );
        non_key_defs.push(
            KeyDef {
                attribute_name: String::from_str("posts"),
                attribute_value: AttributeValue::Composite(
                    CompositeAttributeValue {
                        segments: posts_segments,
                        prefix: None,
                        suffix: None,
                    },
                ),
            },
        );
        let r = SchemaV2 {
            partition_key_def: KeyDef {
                attribute_name: String::from_str("pk"),
                attribute_value: CompositeAttributeValue {
                    segments: pk_segments,
                    prefix: None,
                    suffix: None,
                },
            },
            sort_key_def: Some(
                KeyDef {
                    attribute_name: String::from_str("sk"),
                    attribute_value: AttributeValue::Static(String::from_str("count")),
                },
            ),
            non_key_defs,
        };
        proof {
            assert(r@ =~~= user_count_schema());
        }
        r
    }

    fn to_item(&self) -> (r: AttributeMap) {
        let schema = Self::get_schema();
        let inst = self.instance();
        encode(&schema, &inst)
    }
}

//
// ─── MY ENTITY 2 ────────────────────────────────────────────────────────────
//
/// An entity whose keys are computed directly by its accessors: the `pk`
/// field is the partition key, and the sort key joins two labelled
/// attribute values.
#[derive(Debug)]
pub struct MyEntity2 {
    pub pk: String,
    pub attribute2_hello: bool,
    pub attribute3: String,
    pub attribute4: bool,
}

/// The sort-key string of a [`MyEntity2`]: two labelled attribute values,
/// joined with the delimiter.
pub open spec fn my_entity2_sort_key(e: MyEntity2) -> Seq<char> {
    crate::encode::join(
        seq![
            "ATTRIBUTE2_HELLO"@,
            crate::text::spec_bool_chars(e.attribute2_hello),
            "ATTRIBUTE3"@,
            e.attribute3@,
        ],
        crate::DELIMITER,
    )
}

/// Spec view of a [`MyEntity2`].
#[verifier::ext_equal]
pub struct MyEntity2V {
    pub pk: Seq<char>,
    pub attribute2_hello: bool,
    pub attribute3: Seq<char>,
    pub attribute4: bool,
}

impl View for MyEntity2 {
    type V = MyEntity2V;

    open spec fn view(&self) -> MyEntity2V {
        MyEntity2V {
            pk: self.pk@,
            attribute2_hello: self.attribute2_hello,
            attribute3: self.attribute3@,
            attribute4: self.attribute4,
        }
    }
}

/// One recorded assignment applied to a [`MyEntity2`]: the named attribute
/// takes the assignment's value (booleans read back from their literal
/// string form), every other field stays as it was, and an assignment
/// naming no attribute changes nothing.
pub open spec fn spec_apply_update(e: MyEntity2V, u: NamedValueV) -> MyEntity2V {
    if u.name == "attribute2_hello"@ {
        MyEntity2V { attribute2_hello: u.value == "true"@, ..e }
    } else if u.name == "attribute3"@ {
        MyEntity2V { attribute3: u.value, ..e }
    } else if u.name == "attribute4"@ {
        MyEntity2V { attribute4: u.value == "true"@, ..e }
    } else {
        e
    }
}

/// A list of recorded assignments applied in order, the later ones over
/// the earlier.
pub open spec fn spec_apply_updates(e: MyEntity2V, us: Seq<NamedValueV>) -> MyEntity2V
    decreases us.len(),
{
    if us.len() == 0 {
        e
    } else {
        spec_apply_updates(spec_apply_update(e, us[0]), us.drop_first())
    }
}

impl Default for MyEntity2 {
    /// The all-empty instance: empty strings and false flags.
    fn default() -> (r: Self)
        ensures
            r.pk@ == Seq::<char>::empty(),
            r.attribute2_hello == false,
            r.attribute3@ == Seq::<char>::empty(),
            r.attribute4 == false,
    {
        MyEntity2 {
            pk: String::new(),
            attribute2_hello: false,
            attribute3: String::new(),
            attribute4: false,
        }
    }
}

impl MyEntity2 {
    /// Applies one recorded field assignment, as [`spec_apply_update`]
    /// describes it.
    pub fn apply_update(&mut self, u: &NamedValue)
        ensures
            final(self)@ == spec_apply_update(old(self)@, u@),
    {
        proof {
            reveal_strlit("attribute2_hello");
            reveal_strlit("attribute3");
            reveal_strlit("attribute4");
            assert("attribute3"@ != "attribute4"@) by {
                assert("attribute3"@[9] == '3');
                assert("attribute4"@[9] == '4');
            }
            assert("attribute2_hello"@.len() == 16);
            assert("attribute3"@.len() == 10);
            assert("attribute4"@.len() == 10);
        }
        if u.name == String::from_str("attribute2_hello") {
            self.attribute2_hello = u.value == String::from_str("true");
        } else if u.name == String::from_str("attribute3") {
            self.attribute3 = u.value.clone();
        } else if u.name == String::from_str("attribute4") {
            self.attribute4 = u.value == String::from_str("true");
        }
        proof {
            assert(self@ =~= spec_apply_update(old(self)@, u@));
        }
    }

    /// Replays a recorded assignment list in order, the later assignments
    /// over the earlier, as [`spec_apply_updates`] describes it.
    #[verifier::loop_isolation(false)]
    pub fn apply_updates(&mut self, updates: &Vec<NamedValue>)
        ensures
            final(self)@ == spec_apply_updates(old(self)@, updates.deep_view()),
    {
        let ghost us = updates.deep_view();
        proof {
            assert(us.skip(0) =~= us);
        }
        let mut i: usize = 0;
        while i < updates.len()
            invariant
                i <= updates.len(),
                spec_apply_updates(self@, us.skip(i as int)) == spec_apply_updates(old(self)@, us),
            decreases updates.len() - i,
        {
            proof {
                assert(us.skip(i as int)[0] == us[i as int]);
                assert(us.skip(i as int).drop_first() =~= us.skip(i + 1 as int));
            }
            self.apply_update(&updates[i]);
            i += 1;
        }
        proof {
            assert(us.skip(updates.len() as int) =~= Seq::<NamedValueV>::empty());
        }
    }
}

impl crate::traits::Entity for MyEntity2 {
    open spec fn spec_partition_key(&self) -> Seq<char> {
        self.pk@
    }

    open spec fn spec_sort_key(&self) -> Option<Seq<char>> {
        Some(my_entity2_sort_key(*self))
    }

    fn get_partition_key(&self) -> (r: String) {
        self.pk.clone()
    }

    fn get_sort_key(&self) -> (r: Option<String>) {
        let mut parts: Vec<String> = Vec::new();
        parts.push(String::from_str("ATTRIBUTE2_HELLO"));
        parts.push(crate::text::bool_to_string(self.attribute2_hello));
        parts.push(String::from_str("ATTRIBUTE3"));
        parts.push(self.attribute3.clone());
        proof {
            assert(parts.deep_view() =~= seq![
                "ATTRIBUTE2_HELLO"@,
                crate::text::spec_bool_chars(self.attribute2_hello),
                "ATTRIBUTE3"@,
                self.attribute3@,
            ]);
        }
        Some(crate::encode::join_with_delimiter(&parts))
    }
}


} // verus!