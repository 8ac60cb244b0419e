//! The resolved schema model: key definitions, composite values and their
//! segments, together with the spec-level views that contracts speak of.

use vstd::prelude::*;

verus! {

/// Spec view of an optional string: the optional sequence of its characters.
pub open spec fn opt_view(o: Option<String>) -> Option<Seq<char>> {
    match o {
        Some(s) => Some(s@),
        None => None,
    }
}

/// One ordered contribution to a composite value: the runtime value of the
/// named struct field, optionally preceded by a prefix part.
#[derive(Debug, Clone)]
pub struct Segment {
    pub struct_field_name: String,
    pub prefix: Option<String>,
}

/// Spec view of a [`Segment`].
#[verifier::ext_equal]
pub struct SegmentV {
    pub struct_field_name: Seq<char>,
    pub prefix: Option<Seq<char>>,
}

impl View for Segment {
    type V = SegmentV;

    open spec fn view(&self) -> SegmentV {
        SegmentV { struct_field_name: self.struct_field_name@, prefix: opt_view(self.prefix) }
    }
}

/// An ordered list of segments joined with the delimiter, wrapped in an
/// optional overall prefix and suffix.
#[derive(Debug, Clone)]
pub struct CompositeAttributeValue {
    pub segments: Vec<Segment>,
    pub prefix: Option<String>,
    pub suffix: Option<String>,
}

/// Spec view of a [`CompositeAttributeValue`].
#[verifier::ext_equal]
pub struct CompositeAttributeValueV {
    pub segments: Seq<SegmentV>,
    pub prefix: Option<Seq<char>>,
    pub suffix: Option<Seq<char>>,
}

impl View for CompositeAttributeValue {
    type V = CompositeAttributeValueV;

    open spec fn view(&self) -> CompositeAttributeValueV {
        CompositeAttributeValueV {
            segments: self.segments.deep_view(),
            prefix: opt_view(self.prefix),
            suffix: opt_view(self.suffix),
        }
    }
}

impl DeepView for Segment {
    type V = SegmentV;

    open spec fn deep_view(&self) -> SegmentV {
        self.view()
    }
}

/// The value stored under an attribute name: a fixed literal, or a composite
/// built from segment values at encode time.
#[derive(Debug, Clone)]
pub enum AttributeValue {
    Static(String),
    Composite(CompositeAttributeValue),
}

/// Spec view of an [`AttributeValue`].
#[verifier::ext_equal]
pub enum AttributeValueV {
    Static(Seq<char>),
    Composite(CompositeAttributeValueV),
}

impl View for AttributeValue {
    type V = AttributeValueV;

    open spec fn view(&self) -> AttributeValueV {
        match self {
            AttributeValue::Static(s) => AttributeValueV::Static(s@),
            AttributeValue::Composite(c) => AttributeValueV::Composite(c@),
        }
    }
}

/// An attribute name bound to the rule that produces its value.
#[derive(Debug, Clone)]
pub struct KeyDef<V> {
    pub attribute_name: String,
    pub attribute_value: V,
}

/// Spec view of a [`KeyDef`].
#[verifier::ext_equal]
pub struct KeyDefV<W> {
    pub attribute_name: Seq<char>,
    pub attribute_value: W,
}

impl<V: View> View for KeyDef<V> {
    type V = KeyDefV<<V as View>::V>;

    open spec fn view(&self) -> KeyDefV<<V as View>::V> {
        KeyDefV { attribute_name: self.attribute_name@, attribute_value: self.attribute_value@ }
    }
}

impl<V: View> DeepView for KeyDef<V> {
    type V = KeyDefV<<V as View>::V>;

    open spec fn deep_view(&self) -> KeyDefV<<V as View>::V> {
        self.view()
    }
}

/// The fully resolved description of one entity type: the partition key,
/// the optional sort key, and the named non-key attributes.
#[derive(Debug, Clone)]
pub struct SchemaV2 {
    pub partition_key_def: KeyDef<CompositeAttributeValue>,
    pub sort_key_def: Option<KeyDef<AttributeValue>>,
    pub non_key_defs: Vec<KeyDef<AttributeValue>>,
}

/// Spec view of a [`SchemaV2`].
#[verifier::ext_equal]
pub struct SchemaV2V {
    pub partition_key_def: KeyDefV<CompositeAttributeValueV>,
    pub sort_key_def: Option<KeyDefV<AttributeValueV>>,
    pub non_key_defs: Seq<KeyDefV<AttributeValueV>>,
}

impl View for SchemaV2 {
    type V = SchemaV2V;

    open spec fn view(&self) -> SchemaV2V {
        SchemaV2V {
            partition_key_def: self.partition_key_def@,
            sort_key_def: match &self.sort_key_def {
                Some(k) => Some(k@),
                None => None,
            },
            non_key_defs: self.non_key_defs.deep_view(),
        }
    }
}

/// One segment of the earlier composite-key model.
#[derive(Debug, Clone)]
pub struct KeySegment {
    pub field_name: String,
    pub prefix: Option<String>,
}

/// A key of the earlier schema model: attribute name, overall prefix and
/// suffix, and segments whose order in the vector is the true order.
#[derive(Debug, Clone)]
pub struct CompositeKey {
    pub attribute_name: String,
    pub value_prefix: Option<String>,
    pub value_suffix: Option<String>,
    pub segments: Vec<KeySegment>,
}

/// One segment of a non-key attribute in the earlier schema model.
#[derive(Debug, Clone)]
pub struct NonKeySegment {
    pub field_name: String,
    pub prefix: Option<String>,
}

/// How a non-key attribute of the earlier schema model gets its value.
#[derive(Debug, Clone)]
pub enum NonKeyKind {
    Static(String),
    Composite {
        value_prefix: Option<String>,
        value_suffix: Option<String>,
        segments: Vec<NonKeySegment>,
    },
}

/// A non-key attribute of the earlier schema model.
#[derive(Debug, Clone)]
pub struct NonKey {
    pub attribute_name: String,
    pub kind: NonKeyKind,
}

/// The earlier schema model, kept for callers that still build against it.
#[derive(Debug, Clone)]
pub struct Schema {
    pub partition_key: CompositeKey,
    pub sort_key: Option<CompositeKey>,
    pub non_keys: Vec<NonKey>,
}

} // verus!
