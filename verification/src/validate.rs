//! The validator: structural checks over a resolved schema, run once right
//! after the build. Every composite key or group must carry at least one
//! segment; static values are always valid.

use vstd::prelude::*;
use crate::error::{SchemaError, SchemaErrorV};
use crate::keys::{AttributeValue, AttributeValueV, KeyDefV, SchemaV2, SchemaV2V};

verus! {

/// The first non-key definition that is an empty composite, reported as an
/// empty-composite error.
pub open spec fn first_empty_nk(nks: Seq<KeyDefV<AttributeValueV>>) -> Option<SchemaErrorV>
    decreases nks.len(),
{
    if nks.len() == 0 {
        None
    } else {
        match nks[0].attribute_value {
            AttributeValueV::Composite(c) => {
                if c.segments.len() == 0 {
                    Some(SchemaErrorV::EmptyComposite { attribute_name: nks[0].attribute_name })
                } else {
                    first_empty_nk(nks.drop_first())
                }
            },
            AttributeValueV::Static(_) => first_empty_nk(nks.drop_first()),
        }
    }
}

/// What validating a schema yields: acceptance, or the first structural
/// complaint — a partition key with no segments, then a composite sort key
/// with no segments, then the first empty composite non-key group.
pub open spec fn spec_validate(s: SchemaV2V) -> Result<(), SchemaErrorV> {
    if s.partition_key_def.attribute_value.segments.len() == 0 {
        Err(SchemaErrorV::EmptyComposite { attribute_name: s.partition_key_def.attribute_name })
    } else {
        match s.sort_key_def {
            Some(sk) => match sk.attribute_value {
                AttributeValueV::Composite(c) => {
                    if c.segments.len() == 0 {
                        Err(SchemaErrorV::EmptyComposite { attribute_name: sk.attribute_name })
                    } else {
                        match first_empty_nk(s.non_key_defs) {
                            Some(e) => Err(e),
                            None => Ok(()),
                        }
                    }
                },
                AttributeValueV::Static(_) => match first_empty_nk(s.non_key_defs) {
                    Some(e) => Err(e),
                    None => Ok(()),
                },
            },
            None => match first_empty_nk(s.non_key_defs) {
                Some(e) => Err(e),
                None => Ok(()),
            },
        }
    }
}

/// The view of a validation result.
pub open spec fn validate_result_view(r: Result<(), SchemaError>) -> Result<(), SchemaErrorV> {
    match r {
        Ok(()) => Ok(()),
        Err(e) => Err(e@),
    }
}

/// Enforces the structural invariants over a resolved schema: the partition
/// key, a composite sort key, and every composite non-key group must each
/// carry at least one segment. Returns exactly what [`spec_validate`]
/// assigns to the schema.
#[verifier::loop_isolation(false)]
pub fn validate_schema(schema: &SchemaV2) -> (r: Result<(), SchemaError>)
    ensures
        validate_result_view(r) == spec_validate(schema@),
{
    let ghost sv = schema@;
    if schema.partition_key_def.attribute_value.segments.len() == 0 {
        return Err(
            SchemaError::EmptyComposite {
                attribute_name: schema.partition_key_def.attribute_name.clone(),
            },
        );
    }
    if let Some(sk) = &schema.sort_key_def {
        if let AttributeValue::Composite(c) = &sk.attribute_value {
            if c.segments.len() == 0 {
                return Err(
                    SchemaError::EmptyComposite { attribute_name: sk.attribute_name.clone() },
                );
            }
        }
    }
    let ghost nv = sv.non_key_defs;
    let mut i: usize = 0;
    proof {
        assert(nv.skip(0) =~= nv);
    }
    while i < schema.non_key_defs.len()
        invariant
            i <= schema.non_key_defs.len(),
            first_empty_nk(nv) == first_empty_nk(nv.skip(i as int)),
        decreases schema.non_key_defs.len() - i,
    {
        proof {
            assert(nv.skip(i as int)[0] == nv[i as int]);
            assert(nv.skip(i as int).drop_first() =~= nv.skip(i + 1 as int));
            assert(nv[i as int] == schema.non_key_defs@[i as int]@);
        }
        let nk = &schema.non_key_defs[i];
        if let AttributeValue::Composite(c) = &nk.attribute_value {
            if c.segments.len() == 0 {
                return Err(
                    SchemaError::EmptyComposite { attribute_name: nk.attribute_name.clone() },
                );
            }
        }
        i += 1;
    }
    proof {
        assert(nv.skip(schema.non_key_defs.len() as int) =~= Seq::<
            KeyDefV<AttributeValueV>,
        >::empty());
    }
    Ok(())
}

} // verus!
