//! Repository-side builders: value objects that accumulate a query or an
//! update before an external storage client runs it. They hold plain data
//! only; performing the call belongs to the caller that owns the client.

use vstd::prelude::*;
use core::marker::PhantomData;
use crate::encode::{NamedValue, NamedValueV};
use crate::entities::MyEntity2;
use crate::text::{bool_to_string, spec_bool_chars};

verus! {

/// Accumulates a query: the partition key to look up.
pub struct QueryBuilder<T> {
    pub partition_key: Option<String>,
    pub _marker: PhantomData<T>,
}

impl<T> QueryBuilder<T> {
    /// Sets the partition key the query will run against.
    pub fn where_partition_key(self, key: &str) -> (r: Self)
        ensures
            r.partition_key matches Some(k) && k@ == key@,
    {
        let mut s = self;
        s.partition_key = Some(key.to_owned());
        s
    }
}

/// Accumulates an update: the partition key of the item to change, and the
/// field assignments to apply, in order.
pub struct UpdateBuilder<T> {
    pub partition_key: Option<String>,
    pub updates: Vec<NamedValue>,
    pub _marker: PhantomData<T>,
}

impl<T> UpdateBuilder<T> {
    /// Sets the partition key the update will run against; the recorded
    /// assignments stay as they were.
    pub fn where_partition_key(self, key: &str) -> (r: Self)
        ensures
            r.partition_key matches Some(k) && k@ == key@,
            r.updates == self.updates,
    {
        let mut s = self;
        s.partition_key = Some(key.to_owned());
        s
    }
}

/// Access to the update builder wrapped inside a richer builder.
pub trait HasInner<T> {
    /// The wrapped update builder.
    spec fn spec_inner(&self) -> UpdateBuilder<T>;

    /// Borrows the wrapped update builder for mutation.
    fn inner_mut(&mut self) -> (r: &mut UpdateBuilder<T>)
        ensures
            *r == old(self).spec_inner(),
            final(self).spec_inner() == *final(r),
    ;
}

/// An update builder together with per-entity setters.
pub struct UpdateBuilderWithSetters<T> {
    pub inner: UpdateBuilder<T>,
}

impl<T> HasInner<T> for UpdateBuilderWithSetters<T> {
    open spec fn spec_inner(&self) -> UpdateBuilder<T> {
        self.inner
    }

    fn inner_mut(&mut self) -> (r: &mut UpdateBuilder<T>) {
        &mut self.inner
    }
}

impl<T> UpdateBuilderWithSetters<T> {
    /// Sets the partition key the update will run against; the recorded
    /// assignments stay as they were.
    pub fn where_partition_key(self, key: &str) -> (r: Self)
        ensures
            r.inner.partition_key matches Some(k) && k@ == key@,
            r.inner.updates == self.inner.updates,
    {
        let inner = self.inner;
        UpdateBuilderWithSetters { inner: inner.where_partition_key(key) }
    }
}

/// The per-entity setters of [`MyEntity2`] updates: each records one field
/// assignment, rendered as the string the storage encoding uses.
pub trait MyEntity2Setters: HasInner<MyEntity2> + Sized {
    /// Records an assignment to `attribute2_hello`.
    fn set_attribute2_hello(self, value: bool) -> (r: Self)
        ensures
            r.spec_inner().updates.deep_view() == self.spec_inner().updates.deep_view().push(
                NamedValueV { name: "attribute2_hello"@, value: spec_bool_chars(value) },
            ),
            r.spec_inner().partition_key == self.spec_inner().partition_key,
    ;

    /// Records an assignment to `attribute3`.
    fn set_attribute3(self, value: String) -> (r: Self)
        ensures
            r.spec_inner().updates.deep_view() == self.spec_inner().updates.deep_view().push(
                NamedValueV { name: "attribute3"@, value: value@ },
            ),
            r.spec_inner().partition_key == self.spec_inner().partition_key,
    ;

    /// Records an assignment to `attribute4`.
    fn set_attribute4(self, value: bool) -> (r: Self)
        ensures
            r.spec_inner().updates.deep_view() == self.spec_inner().updates.deep_view().push(
                NamedValueV { name: "attribute4"@, value: spec_bool_chars(value) },
            ),
            r.spec_inner().partition_key == self.spec_inner().partition_key,
    ;
}

impl MyEntity2Setters for UpdateBuilderWithSetters<MyEntity2> {
    fn set_attribute2_hello(self, value: bool) -> (r: Self) {
        let ghost prev = self.inner.updates.deep_view();
        let mut s = self;
        s.inner.updates.push(
            NamedValue { name: String::from_str("attribute2_hello"), value: bool_to_string(value) },
        );
        proof {
            assert(s.inner.updates.deep_view() =~= prev.push(
                NamedValueV { name: "attribute2_hello"@, value: spec_bool_chars(value) },
            ));
        }
        s
    }

    fn set_attribute3(self, value: String) -> (r: Self) {
        let ghost prev = self.inner.updates.deep_view();
        let ghost vv = value@;
        let mut s = self;
        s.inner.updates.push(
            NamedValue { name: String::from_str("attribute3"), value },
        );
        proof {
            assert(s.inner.updates.deep_view() =~= prev.push(
                NamedValueV { name: "attribute3"@, value: vv },
            ));
        }
        s
    }

    fn set_attribute4(self, value: bool) -> (r: Self) {
        let ghost prev = self.inner.updates.deep_view();
        let mut s = self;
        s.inner.updates.push(
            NamedValue { name: String::from_str("attribute4"), value: bool_to_string(value) },
        );
        proof {
            assert(s.inner.updates.deep_view() =~= prev.push(
                NamedValueV { name: "attribute4"@, value: spec_bool_chars(value) },
            ));
        }
        s
    }
}

/// The repository over [`MyEntity2`]: hands out fresh builders.
pub struct Entity2Repo;

impl Entity2Repo {
    /// Starts a query with no partition key chosen yet.
    pub fn query(&self) -> (r: QueryBuilder<MyEntity2>)
        ensures
            r.partition_key is None,
    {
        QueryBuilder { partition_key: None, _marker: PhantomData }
    }

    /// Starts an update with no partition key and no assignments yet.
    pub fn update(&self) -> (r: UpdateBuilderWithSetters<MyEntity2>)
        ensures
            r.inner.partition_key is None,
            r.inner.updates@.len() == 0,
    {
        UpdateBuilderWithSetters {
            inner: UpdateBuilder { partition_key: None, updates: Vec::new(), _marker: PhantomData },
        }
    }
}

} // verus!
