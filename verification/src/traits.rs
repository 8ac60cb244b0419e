//! The entity traits: what a type must offer so that repositories and the
//! storage client can work with it.

use vstd::prelude::*;
use crate::encode::{spec_encode, AttributeMap, NamedValueV};
use crate::keys::{opt_view, Schema, SchemaV2, SchemaV2V};

verus! {

/// An entity whose keys are computed by its own accessors.
pub trait Entity {
    /// The partition-key string of this instance.
    spec fn spec_partition_key(&self) -> Seq<char>;

    /// The sort-key string of this instance, if the type has one.
    spec fn spec_sort_key(&self) -> Option<Seq<char>>;

    /// Returns the partition-key string of this instance.
    fn get_partition_key(&self) -> (r: String)
        ensures
            r@ == self.spec_partition_key(),
    ;

    /// Returns the sort-key string of this instance, if the type has one.
    fn get_sort_key(&self) -> (r: Option<String>)
        ensures
            opt_view(r) == self.spec_sort_key(),
    ;
}

/// An entity described by the earlier schema model.
pub trait Entity1 {
    /// Returns the type's schema in the earlier model.
    fn get_schema() -> Schema;
}

/// An entity described by a resolved schema, whose instances flatten into
/// attribute maps.
pub trait Entity2 {
    /// The type's resolved schema.
    spec fn spec_schema() -> SchemaV2V;

    /// This instance's field-accessor table: each field's name bound to its
    /// rendered string value.
    spec fn spec_instance(&self) -> Seq<NamedValueV>;

    /// Returns the type's resolved schema.
    fn get_schema() -> (r: SchemaV2)
        ensures
            r@ == Self::spec_schema(),
    ;

    /// Flattens this instance into its named-attribute map.
    fn to_item(&self) -> (r: AttributeMap)
        ensures
            r@ == spec_encode(Self::spec_schema(), self.spec_instance()),
    ;
}

} // verus!
