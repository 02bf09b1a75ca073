//! Ingress: the form in which a request arrives, and its two ways into the
//! create-data use case.

use vstd::prelude::*;
use vstd::std_specs::convert::FromSpecImpl;
use crate::adaptor::InPort;
use crate::application::DataDto;
use crate::kernel::Record;

verus! {

/// What a user submits.
pub struct UserInputForm {
    pub id: String,
    pub name: String,
}

impl View for UserInputForm {
    type V = Record;

    open spec fn view(&self) -> Record {
        Record { id: self.id@, name: self.name@ }
    }
}

impl Clone for UserInputForm {
    fn clone(&self) -> (copy: Self)
        ensures
            copy == *self,
    {
        Self { id: self.id.clone(), name: self.name.clone() }
    }
}

impl UserInputForm {
    /// The transfer object with the fields of this form.
    pub open spec fn dto(self) -> DataDto {
        DataDto { id: self.id, name: self.name }
    }
}

/// The transform stage for forms.
pub struct TransformerA;

impl InPort<UserInputForm> for TransformerA {
    type Dto = DataDto;

    /// The transfer object with the fields of the form.
    fn emit(&self, input: UserInputForm) -> (dto: Self::Dto)
        ensures
            dto == input.dto(),
            dto@ == input@,
    {
        Self::Dto { id: input.id, name: input.name }
    }
}

impl FromSpecImpl<UserInputForm> for DataDto {
    open spec fn obeys_from_spec() -> bool {
        true
    }

    open spec fn from_spec(value: UserInputForm) -> DataDto {
        value.dto()
    }
}

impl From<UserInputForm> for DataDto {
    /// The transfer object with the fields of the form.
    fn from(value: UserInputForm) -> (dto: Self)
        ensures
            dto == value.dto(),
            dto@ == value@,
    {
        Self { id: value.id, name: value.name }
    }
}

} // verus!
