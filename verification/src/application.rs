//! Use-case layer: the transfer object and the create-data service.

use vstd::prelude::*;
use vstd::std_specs::convert::FromSpecImpl;
use crate::kernel::{Data, DependOnRepository, DestructData, Record, Repository};
use crate::text::{debug_quoted, quote};

verus! {

/// The shape in which a record enters and leaves the use case.
#[derive(Debug)]
pub struct DataDto {
    pub id: String,
    pub name: String,
}

impl View for DataDto {
    type V = Record;

    open spec fn view(&self) -> Record {
        Record { id: self.id@, name: self.name@ }
    }
}

impl Clone for DataDto {
    fn clone(&self) -> (copy: Self)
        ensures
            copy == *self,
    {
        Self { id: self.id.clone(), name: self.name.clone() }
    }
}

impl DataDto {
    /// The debug text of a transfer object whose two fields have the debug
    /// texts `id` and `name`: the type's name, then each field's name with
    /// the field's debug text, between braces.
    pub open spec fn debug_frame(id: Seq<char>, name: Seq<char>) -> Seq<char> {
        "DataDto { id: "@ + id + ", name: "@ + name + " }"@
    }

    /// The debug text of a transfer object with the given contents.
    pub open spec fn debug_text(dto: Record) -> Seq<char> {
        Self::debug_frame(debug_quoted(dto.id), debug_quoted(dto.name))
    }

    /// Puts the debug texts of the two fields into the debug text of a
    /// transfer object.
    pub fn framed(id: &str, name: &str) -> (text: String)
        ensures
            text@ == Self::debug_frame(id@, name@),
    {
        let mut text = String::from_str("DataDto { id: ");
        text.append(id);
        text.append(", name: ");
        text.append(name);
        text.append(" }");
        text
    }

    /// Writes this transfer object as `{:?}` does.
    pub fn to_debug_string(&self) -> (text: String)
        ensures
            text@ == Self::debug_text(self@),
    {
        let id = quote(self.id.as_str());
        let name = quote(self.name.as_str());
        Self::framed(id.as_str(), name.as_str())
    }

    /// The record that the use case makes of this transfer object.
    pub open spec fn entity(self) -> Data {
        (DestructData { id: self.id, name: self.name }).frozen()
    }

    /// The transfer object that carries the fields of `data`.
    pub open spec fn of_entity(data: Data) -> DataDto {
        DataDto { id: data.parts().id, name: data.parts().name }
    }

    /// Makes the record that the repository is asked to store.
    pub fn into_entity(self) -> (data: Data)
        ensures
            data == self.entity(),
    {
        let DataDto { id, name } = self;
        let data = Data::new(id, name);
        proof {
            data.parts_frozen();
        }
        data
    }
}

impl FromSpecImpl<Data> for DataDto {
    open spec fn obeys_from_spec() -> bool {
        true
    }

    open spec fn from_spec(value: Data) -> DataDto {
        DataDto::of_entity(value)
    }
}

impl From<Data> for DataDto {
    /// The transfer object with the fields of the record.
    fn from(value: Data) -> (dto: Self)
        ensures
            dto == DataDto::of_entity(value),
            dto@ == value@,
    {
        let DestructData { id, name } = value.into_destruct();
        Self { id, name }
    }
}

/// Whether `outcome` is an answer that the repository held by `holder` may
/// give when asked to store `data`.
pub open spec fn stores<S: DependOnRepository + ?Sized>(
    holder: &S,
    data: Data,
    outcome: Result<(), u64>,
) -> bool {
    exists|repository: &S::Repository|
        call_ensures(S::repository, (holder,), repository) && #[trigger] call_ensures(
            <S::Repository as Repository>::create,
            (repository, &data),
            outcome,
        )
}

/// What the use case answers for `data` once the repository has answered
/// `outcome`: the record as a transfer object, or the repository's code.
pub open spec fn create_answer(data: Data, outcome: Result<(), u64>) -> Result<DataDto, u64> {
    match outcome {
        Ok(_) => Ok(DataDto::of_entity(data)),
        Err(code) => Err(code),
    }
}

/// Ends the use case: turns the repository's answer for `data` into the
/// answer of the use case. A code is handed on as it came.
pub fn conclude(data: Data, outcome: Result<(), u64>) -> (res: Result<DataDto, u64>)
    ensures
        res == create_answer(data, outcome),
{
    match outcome {
        Ok(_) => Ok(data.into()),
        Err(code) => Err(code),
    }
}

/// The create-data use case, given to everything that holds a repository.
pub trait CreateDataService: 'static + Send + Sync + DependOnRepository {
    /// Makes a record of `obj`, asks the repository to store it, and gives
    /// the record back as a transfer object. Where the repository answers
    /// with a code, that code is the answer.
    fn create(&self, obj: DataDto) -> (res: Result<DataDto, u64>)
        ensures
            exists|outcome: Result<(), u64>| #[trigger]
                stores(self, obj.entity(), outcome) && res == create_answer(obj.entity(), outcome),
            res matches Ok(dto) ==> dto == obj,
    {
        let data = obj.into_entity();
        let outcome = self.repository().create(&data);
        proof {
            assert(stores(self, data, outcome));
            (DestructData { id: obj.id, name: obj.name }).frozen_parts();
        }
        conclude(data, outcome)
    }
}

impl<T> CreateDataService for T where T: DependOnRepository {

}

/// Something that holds a [`CreateDataService`].
pub trait DependOnCreateDataService: 'static + Send + Sync {
    type CreateDataService: CreateDataService;

    fn create_simple_data_service(&self) -> &Self::CreateDataService;
}

} // verus!
