//! What holds of every run of the pipeline, proved from the contracts of its
//! stages.

use vstd::prelude::*;
use crate::adaptor::{
    answers, converts, presents, shows_captured, shows_transformed, transforms, InPort, OutPort,
    PresentationalDataA, PresenterA, PresenterB,
};
use crate::application::{create_answer, stores, CreateDataService, DataDto};
use crate::form::{TransformerA, UserInputForm};
use crate::inject::Handler;
use crate::kernel::{Data, DestructData, Record};

verus! {

/// Whether `answer` is something that the create use case of `service` may
/// answer for `dto`.
pub open spec fn creates<S: CreateDataService>(
    service: S,
    dto: DataDto,
    answer: Result<DataDto, u64>,
) -> bool {
    call_ensures(<S as CreateDataService>::create, (&service, dto), answer)
}

/// Whether `record` is a success that holds exactly `fields`.
pub open spec fn shows_record(record: Result<PresentationalDataA, u64>, fields: Record) -> bool {
    record matches Ok(shown) && shown@ == fields
}

/// Whether `text` is a success that is the debug text of a transfer object
/// with exactly `fields`.
pub open spec fn shows_text(text: Result<String, u64>, fields: Record) -> bool {
    text matches Ok(shown) && shown@ == DataDto::debug_text(fields)
}

/// Whether `handler` does nothing but run the create use case of `service`.
pub open spec fn runs_create<F, S>(handler: F, service: S) -> bool where
    F: FnOnce(DataDto) -> Result<DataDto, u64>,
    S: CreateDataService,
{
    forall|dto: DataDto, answer: Result<DataDto, u64>| #[trigger]
        call_ensures(handler, (dto,), answer) ==> creates(service, dto, answer)
}

/// Whether `shown` may come out of a pipeline for `form`, whichever of the
/// two controllers runs it.
pub open spec fn shows_form<P, F, O>(
    presenter: P,
    handler: F,
    form: UserInputForm,
    shown: P::ViewModel,
) -> bool where P: OutPort<O>, F: FnOnce(DataDto) -> O {
    shows_transformed(TransformerA, presenter, handler, form, shown) || shows_captured(
        presenter,
        handler,
        form,
        shown,
    )
}

/// Transfer object and record turn into each other without loss.
pub proof fn dto_entity_round_trip(dto: DataDto, data: Data)
    ensures
        DataDto::of_entity(dto.entity()) == dto,
        DataDto::of_entity(data).entity() == data,
        dto.entity()@ == dto@,
        DataDto::of_entity(data)@ == data@,
{
    (DestructData { id: dto.id, name: dto.name }).frozen_parts();
    data.parts_frozen();
}

/// The stand-in repository behind a [`Handler`] accepts every record.
pub proof fn stand_in_accepts(handler: Handler, data: Data, outcome: Result<(), u64>)
    requires
        stores(&handler, data, outcome),
    ensures
        outcome == Ok::<(), u64>(()),
{
}

/// A form and the transfer object made of it, by the transform stage or by
/// conversion, hold the same fields.
pub proof fn ingress_keeps_fields(form: UserInputForm, dto: DataDto)
    requires
        transforms(TransformerA, form, dto) || converts(form, dto),
    ensures
        dto == form.dto(),
        dto@ == form@,
{
}

/// Over a repository that accepts the record, the create use case answers
/// with the transfer object that it was given.
pub proof fn accepted_record_comes_back<S: CreateDataService>(
    service: S,
    dto: DataDto,
    answer: Result<DataDto, u64>,
)
    requires
        creates(service, dto, answer),
        forall|outcome: Result<(), u64>| #[trigger]
            stores(&service, dto.entity(), outcome) ==> outcome is Ok,
    ensures
        answer == Ok::<DataDto, u64>(dto),
{
}

/// A pipeline for a form hands its handler the transfer object with the
/// form's fields, whichever of the two controllers runs it.
pub proof fn handler_gets_the_form<P, F, O>(
    presenter: P,
    handler: F,
    form: UserInputForm,
    shown: P::ViewModel,
) where P: OutPort<O>, F: FnOnce(DataDto) -> O
    requires
        shows_form(presenter, handler, form, shown),
    ensures
        answers(handler, presenter, form.dto(), shown),
{
    if shows_transformed(TransformerA, presenter, handler, form, shown) {
        let dto = choose|dto: DataDto| #[trigger]
            transforms(TransformerA, form, dto) && answers(handler, presenter, dto, shown);
        ingress_keeps_fields(form, dto);
    } else {
        let dto = choose|dto: DataDto| #[trigger]
            converts(form, dto) && answers(handler, presenter, dto, shown);
        ingress_keeps_fields(form, dto);
    }
}

/// Round trip. A form that goes through the create pipeline, over a
/// repository that accepts every record, comes out as a success view-model,
/// whichever controller runs it: from presenter A a record with the form's
/// id and name, from presenter B the debug text of a transfer object with
/// the form's id and name.
pub proof fn create_round_trip<F, S>(
    handler: F,
    service: S,
    form: UserInputForm,
    record: Result<PresentationalDataA, u64>,
    text: Result<String, u64>,
) where F: FnOnce(DataDto) -> Result<DataDto, u64>, S: CreateDataService
    requires
        runs_create(handler, service),
        forall|data: Data, outcome: Result<(), u64>| #[trigger]
            stores(&service, data, outcome) ==> outcome is Ok,
    ensures
        shows_form(PresenterA, handler, form, record) ==> shows_record(record, form@),
        shows_form(PresenterB, handler, form, text) ==> shows_text(text, form@),
{
    let dto = form.dto();
    if shows_form(PresenterA, handler, form, record) {
        handler_gets_the_form(PresenterA, handler, form, record);
        let answer = choose|answer: Result<DataDto, u64>| #[trigger]
            call_ensures(handler, (dto,), answer) && presents(PresenterA, answer, record);
        accepted_record_comes_back(service, dto, answer);
    }
    if shows_form(PresenterB, handler, form, text) {
        handler_gets_the_form(PresenterB, handler, form, text);
        let answer = choose|answer: Result<DataDto, u64>| #[trigger]
            call_ensures(handler, (dto,), answer) && presents(PresenterB, answer, text);
        accepted_record_comes_back(service, dto, answer);
    }
}

/// Round trip over the stand-in repository: the create pipeline of a
/// [`Handler`] shows every form as a success with the form's id and name.
pub proof fn stand_in_round_trip<F>(
    handler: F,
    service: Handler,
    form: UserInputForm,
    record: Result<PresentationalDataA, u64>,
    text: Result<String, u64>,
) where F: FnOnce(DataDto) -> Result<DataDto, u64>
    requires
        runs_create(handler, service),
    ensures
        shows_form(PresenterA, handler, form, record) ==> shows_record(record, form@),
        shows_form(PresenterB, handler, form, text) ==> shows_text(text, form@),
{
    assert forall|data: Data, outcome: Result<(), u64>| #[trigger]
        stores(&service, data, outcome) implies outcome is Ok by {
        stand_in_accepts(service, data, outcome);
    }
    create_round_trip(handler, service, form, record, text);
}

/// Presenter substitution. For one and the same use-case answer the two
/// presenters agree on everything but the shape: both show a success or both
/// show the same code, and on success the text of presenter B is the debug
/// text of the very fields that the record of presenter A holds.
pub proof fn presenter_substitution(
    answer: Result<DataDto, u64>,
    record: Result<PresentationalDataA, u64>,
    text: Result<String, u64>,
)
    requires
        presents(PresenterA, answer, record),
        presents(PresenterB, answer, text),
    ensures
        match answer {
            Ok(dto) => shows_record(record, dto@) && shows_text(text, dto@),
            Err(code) => record == Err::<PresentationalDataA, u64>(code) && text == Err::<
                String,
                u64,
            >(code),
        },
        record matches Ok(data) ==> shows_text(text, data@),
        record matches Err(code) ==> text == Err::<String, u64>(code),
{
}

/// Transformer substitution. Where the transform stage and the conversion
/// make the same transfer object `dto` of `input`, a view-model that comes out
/// of either controller is an answer of the same handler and presenter on
/// that `dto`: the way in leaves no trace. Where handler and presenter give
/// one answer only, the two view-models are equal.
pub proof fn transformer_substitution<T, P, F, I, D, O>(
    transformer: T,
    presenter: P,
    handler: F,
    input: I,
    dto: D,
    via_transform: P::ViewModel,
    via_capture: P::ViewModel,
) where T: InPort<I, Dto = D>, I: Into<D>, P: OutPort<O>, F: FnOnce(D) -> O
    requires
        forall|made: D| #[trigger] transforms(transformer, input, made) ==> made == dto,
        forall|made: D| #[trigger] converts(input, made) ==> made == dto,
        shows_transformed(transformer, presenter, handler, input, via_transform),
        shows_captured(presenter, handler, input, via_capture),
    ensures
        answers(handler, presenter, dto, via_transform),
        answers(handler, presenter, dto, via_capture),
        (forall|a: P::ViewModel, b: P::ViewModel|
            answers(handler, presenter, dto, a) && answers(handler, presenter, dto, b) ==> a == b)
            ==> via_transform == via_capture,
{
}

/// Transformer substitution for forms. With the same handler, a form shown
/// through the transform stage and the same form shown through conversion
/// are answers of the handler on one and the same transfer object.
pub proof fn form_ingress_substitution<P, F, O>(
    presenter: P,
    handler: F,
    form: UserInputForm,
    via_transform: P::ViewModel,
    via_capture: P::ViewModel,
) where P: OutPort<O>, F: FnOnce(DataDto) -> O
    requires
        shows_transformed(TransformerA, presenter, handler, form, via_transform),
        shows_captured(presenter, handler, form, via_capture),
    ensures
        answers(handler, presenter, form.dto(), via_transform),
        answers(handler, presenter, form.dto(), via_capture),
{
    transformer_substitution(
        TransformerA,
        presenter,
        handler,
        form,
        form.dto(),
        via_transform,
        via_capture,
    );
}

/// Over a repository that answers the record with a code, the create use
/// case answers with that code.
pub proof fn refused_record_gives_code<S: CreateDataService>(
    service: S,
    dto: DataDto,
    code: u64,
    answer: Result<DataDto, u64>,
)
    requires
        creates(service, dto, answer),
        forall|outcome: Result<(), u64>| #[trigger]
            stores(&service, dto.entity(), outcome) ==> outcome == Err::<(), u64>(code),
    ensures
        answer == Err::<DataDto, u64>(code),
{
}

/// Error propagation. Where the repository answers with a code, the create
/// pipeline shows that very code, whichever controller runs it and whichever
/// presenter shows it.
pub proof fn repository_error_is_shown<F, S>(
    handler: F,
    service: S,
    form: UserInputForm,
    code: u64,
    record: Result<PresentationalDataA, u64>,
    text: Result<String, u64>,
) where F: FnOnce(DataDto) -> Result<DataDto, u64>, S: CreateDataService
    requires
        runs_create(handler, service),
        forall|data: Data, outcome: Result<(), u64>| #[trigger]
            stores(&service, data, outcome) ==> outcome == Err::<(), u64>(code),
    ensures
        shows_form(PresenterA, handler, form, record) ==> record == Err::<PresentationalDataA, u64>(
            code,
        ),
        shows_form(PresenterB, handler, form, text) ==> text == Err::<String, u64>(code),
{
    let dto = form.dto();
    if shows_form(PresenterA, handler, form, record) {
        handler_gets_the_form(PresenterA, handler, form, record);
        let answer = choose|answer: Result<DataDto, u64>| #[trigger]
            call_ensures(handler, (dto,), answer) && presents(PresenterA, answer, record);
        refused_record_gives_code(service, dto, code, answer);
    }
    if shows_form(PresenterB, handler, form, text) {
        handler_gets_the_form(PresenterB, handler, form, text);
        let answer = choose|answer: Result<DataDto, u64>| #[trigger]
            call_ensures(handler, (dto,), answer) && presents(PresenterB, answer, text);
        refused_record_gives_code(service, dto, code, answer);
    }
}

/// Error propagation, stage by stage: whatever the record, the use case makes
/// of a repository's code that code.
pub proof fn code_is_handed_on(data: Data, code: u64)
    ensures
        create_answer(data, Err(code)) == Err::<DataDto, u64>(code),
{
}

} // verus!
