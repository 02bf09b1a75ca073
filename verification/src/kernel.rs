//! Domain layer: the record and the capabilities that store it.

use vstd::prelude::*;

verus! {

/// `From<X> for X`, the conversion of a value into its own type, as std has
/// it: the argument comes back unchanged. Taken on trust from std's
/// documentation; it is what makes a `String` handed to [`Data::new`] the
/// field itself.
pub assume_specification<X>[ <X as core::convert::From<X>>::from ](value: X) -> (same: X)
    ensures
        same == value,
;

/// What a record, a transfer object or a view-model holds, as plain text.
pub struct Record {
    pub id: Seq<char>,
    pub name: Seq<char>,
}

/// The domain record. Its fields are set once, by [`Data::new`], and can be
/// read only by taking the record apart with [`Data::into_destruct`].
#[derive(Debug)]
pub struct Data {
    id: String,
    name: String,
}

/// A [`Data`] taken apart: the same fields, all of them readable.
pub struct DestructData {
    pub id: String,
    pub name: String,
}

impl View for DestructData {
    type V = Record;

    open spec fn view(&self) -> Record {
        Record { id: self.id@, name: self.name@ }
    }
}

impl View for Data {
    type V = Record;

    open spec fn view(&self) -> Record {
        self.parts()@
    }
}

impl Clone for Data {
    fn clone(&self) -> (copy: Self)
        ensures
            copy == *self,
    {
        Self { id: self.id.clone(), name: self.name.clone() }
    }
}

impl Data {
    /// The fields of this record.
    pub closed spec fn parts(self) -> DestructData {
        DestructData { id: self.id, name: self.name }
    }

    /// Builds a record whose fields are the two arguments, each converted
    /// into a `String`.
    pub fn new(id: impl Into<String>, name: impl Into<String>) -> (data: Self)
        ensures
            call_ensures(Into::<String>::into, (id,), data.parts().id),
            call_ensures(Into::<String>::into, (name,), data.parts().name),
    {
        Self { id: id.into(), name: name.into() }
    }

    /// Takes the record apart.
    pub fn into_destruct(self) -> (parts: DestructData)
        ensures
            parts == self.parts(),
            parts.frozen() == self,
    {
        DestructData { id: self.id, name: self.name }
    }

    /// A record is the one that its fields put together again give.
    pub proof fn parts_frozen(self)
        ensures
            self.parts().frozen() == self,
    {
    }
}

impl DestructData {
    /// The record with these fields.
    pub closed spec fn frozen(self) -> Data {
        Data { id: self.id, name: self.name }
    }

    /// Puts the fields together into a record again.
    pub fn freeze(self) -> (data: Data)
        ensures
            data == self.frozen(),
            data.parts() == self,
    {
        Data { id: self.id, name: self.name }
    }

    /// Fields put together and taken apart again are the same fields.
    pub proof fn frozen_parts(self)
        ensures
            self.frozen().parts() == self,
    {
    }
}

/// A store for records.
pub trait Repository: 'static + Send + Sync {
    /// Stores `data`, or says with a code why it could not.
    fn create(&self, data: &Data) -> Result<(), u64>;
}

/// Something that holds a [`Repository`].
pub trait DependOnRepository: 'static + Send + Sync {
    type Repository: Repository;

    fn repository(&self) -> &Self::Repository;
}

} // verus!
