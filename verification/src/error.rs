//! Schema-definition errors: every failure is detected once, at build or
//! validation time, and carries the names a caller needs to locate the
//! offending declaration.

use vstd::prelude::*;

verus! {

/// Why a declaration was rejected.
#[derive(Debug, Clone)]
pub enum SchemaError {
    /// A key had no struct-level declaration to disambiguate it, yet not
    /// exactly the number of field contributors that would settle ownership.
    AmbiguousKeyOwnership { key_name: String, contributor_count: usize },
    /// Two or more fields contribute to one key or group without explicit,
    /// pairwise distinct order values; `field_names` are the offenders.
    MissingOrder { key_name: String, field_names: Vec<String> },
    /// Fields attempt to contribute segments to a group already declared
    /// static at the struct level.
    StaticSegmentConflict { group_name: String, field_names: Vec<String> },
    /// A composite key or group resolved to zero segments and carries no
    /// static value.
    EmptyComposite { attribute_name: String },
}

/// Spec view of a [`SchemaError`].
#[verifier::ext_equal]
pub enum SchemaErrorV {
    AmbiguousKeyOwnership { key_name: Seq<char>, contributor_count: int },
    MissingOrder { key_name: Seq<char>, field_names: Seq<Seq<char>> },
    StaticSegmentConflict { group_name: Seq<char>, field_names: Seq<Seq<char>> },
    EmptyComposite { attribute_name: Seq<char> },
}

impl View for SchemaError {
    type V = SchemaErrorV;

    open spec fn view(&self) -> SchemaErrorV {
        match self {
            SchemaError::AmbiguousKeyOwnership { key_name, contributor_count } => {
                SchemaErrorV::AmbiguousKeyOwnership {
                    key_name: key_name@,
                    contributor_count: *contributor_count as int,
                }
            },
            SchemaError::MissingOrder { key_name, field_names } => {
                SchemaErrorV::MissingOrder {
                    key_name: key_name@,
                    field_names: field_names.deep_view(),
                }
            },
            SchemaError::StaticSegmentConflict { group_name, field_names } => {
                SchemaErrorV::StaticSegmentConflict {
                    group_name: group_name@,
                    field_names: field_names.deep_view(),
                }
            },
            SchemaError::EmptyComposite { attribute_name } => {
                SchemaErrorV::EmptyComposite { attribute_name: attribute_name@ }
            },
        }
    }
}

/// The text [`SchemaError::describe`] produces: a fixed account of the kind,
/// followed by the name that locates the offending declaration.
pub open spec fn spec_describe(e: SchemaErrorV) -> Seq<char> {
    match e {
        SchemaErrorV::AmbiguousKeyOwnership { key_name, .. } => {
            "key ownership is ambiguous for "@ + key_name
        },
        SchemaErrorV::MissingOrder { key_name, .. } => {
            "contributors without distinct order values for "@ + key_name
        },
        SchemaErrorV::StaticSegmentConflict { group_name, .. } => {
            "segments contributed to static group "@ + group_name
        },
        SchemaErrorV::EmptyComposite { attribute_name } => {
            "composite value with no segments for "@ + attribute_name
        },
    }
}

impl SchemaError {
    /// A short human-readable account of the error, for display by callers.
    pub fn describe(&self) -> (r: String)
        ensures
            r@ == spec_describe(self@),
    {
        match self {
            SchemaError::AmbiguousKeyOwnership { key_name, .. } => {
                let mut s = String::from_str("key ownership is ambiguous for ");
                s.append(key_name.as_str());
                s
            },
            SchemaError::MissingOrder { key_name, .. } => {
                let mut s = String::from_str("contributors without distinct order values for ");
                s.append(key_name.as_str());
                s
            },
            SchemaError::StaticSegmentConflict { group_name, .. } => {
                let mut s = String::from_str("segments contributed to static group ");
                s.append(group_name.as_str());
                s
            },
            SchemaError::EmptyComposite { attribute_name } => {
                let mut s = String::from_str("composite value with no segments for ");
                s.append(attribute_name.as_str());
                s
            },
        }
    }
}

} // verus!
