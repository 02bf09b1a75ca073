//! Presentation layer: ports, presenters, and the two controllers that chain
//! an input, a handler and a presenter into one single-use pipeline.

use vstd::prelude::*;
use std::marker::PhantomData;
use crate::application::DataDto;
use crate::kernel::Record;

verus! {

/// Turns what arrives from outside into the transfer object of a use case.
pub trait InPort<I>: 'static + Sync + Send {
    type Dto;

    fn emit(&self, input: I) -> Self::Dto;
}

/// Turns what a use case answers into a view-model.
pub trait OutPort<I>: 'static + Sync + Send {
    type ViewModel;

    fn emit(&self, input: I) -> Self::ViewModel;
}

/// Whether `dto` is something that `transformer` may make of `input`.
pub open spec fn transforms<T: InPort<I>, I>(transformer: T, input: I, dto: T::Dto) -> bool {
    call_ensures(<T as InPort<I>>::emit, (&transformer, input), dto)
}

/// Whether `dto` is something that `input` may convert into.
pub open spec fn converts<R: Into<N>, N>(input: R, dto: N) -> bool {
    call_ensures(<R as Into<N>>::into, (input,), dto)
}

/// Whether `shown` is a view-model that `presenter` may make of `outcome`.
pub open spec fn presents<P: OutPort<O>, O>(presenter: P, outcome: O, shown: P::ViewModel) -> bool {
    call_ensures(<P as OutPort<O>>::emit, (&presenter, outcome), shown)
}

/// Whether `shown` may come out when `handler` is called on `dto` and
/// `presenter` shapes what the handler answers.
pub open spec fn answers<F: FnOnce(D) -> O, P: OutPort<O>, D, O>(
    handler: F,
    presenter: P,
    dto: D,
    shown: P::ViewModel,
) -> bool {
    exists|outcome: O| #[trigger]
        call_ensures(handler, (dto,), outcome) && presents(presenter, outcome, shown)
}

/// Whether `shown` may come out of the controller with a transform stage,
/// made of `transformer` and `presenter`, for `input` and `handler`.
pub open spec fn shows_transformed<T, P, F, I, D, O>(
    transformer: T,
    presenter: P,
    handler: F,
    input: I,
    shown: P::ViewModel,
) -> bool where T: InPort<I, Dto = D>, P: OutPort<O>, F: FnOnce(D) -> O {
    exists|dto: D| #[trigger]
        transforms(transformer, input, dto) && answers(handler, presenter, dto, shown)
}

/// Whether `shown` may come out of the controller without a transform stage,
/// made of `presenter`, for `input` and `handler`.
pub open spec fn shows_captured<P, F, R, N, D>(
    presenter: P,
    handler: F,
    input: R,
    shown: P::ViewModel,
) -> bool where R: Into<N>, P: OutPort<D>, F: FnOnce(N) -> D {
    exists|dto: N| #[trigger] converts(input, dto) && answers(handler, presenter, dto, shown)
}

/// The record-shaped view-model: the fields of the stored record.
#[derive(Debug)]
pub struct PresentationalDataA {
    id: String,
    name: String,
}

impl View for PresentationalDataA {
    type V = Record;

    closed spec fn view(&self) -> Record {
        Record { id: self.id@, name: self.name@ }
    }
}

impl PresentationalDataA {
    /// The identifier shown.
    pub fn id(&self) -> (id: &str)
        ensures
            id@ == self@.id,
    {
        self.id.as_str()
    }

    /// The name shown.
    pub fn name(&self) -> (name: &str)
        ensures
            name@ == self@.name,
    {
        self.name.as_str()
    }
}

/// Shows a use-case answer as a record.
pub struct PresenterA;

impl OutPort<Result<DataDto, u64>> for PresenterA {
    type ViewModel = Result<PresentationalDataA, u64>;

    /// A record with the fields of the transfer object; a code as it came.
    fn emit(&self, input: Result<DataDto, u64>) -> (shown: Self::ViewModel)
        ensures
            match input {
                Ok(dto) => shown matches Ok(data) && data@ == dto@,
                Err(code) => shown == Err::<PresentationalDataA, u64>(code),
            },
    {
        match input {
            Ok(input) => Ok(PresentationalDataA { id: input.id, name: input.name }),
            Err(code) => Err(code),
        }
    }
}

/// Shows a use-case answer as text.
pub struct PresenterB;

impl OutPort<Result<DataDto, u64>> for PresenterB {
    type ViewModel = Result<String, u64>;

    /// The debug text of the transfer object; a code as it came.
    fn emit(&self, input: Result<DataDto, u64>) -> (shown: Self::ViewModel)
        ensures
            match input {
                Ok(dto) => shown matches Ok(text) && text@ == DataDto::debug_text(dto@),
                Err(code) => shown == Err::<String, u64>(code),
            },
    {
        match input {
            Ok(input) => Ok(input.to_debug_string()),
            Err(code) => Err(code),
        }
    }
}

/// A controller with a transform stage: `T` makes the transfer object `D` of
/// the input `I`, and `P` shows the handler's answer `O`.
pub struct _Controller<T, P, I, D, O> {
    transformer: T,
    presenter: P,
    _in: PhantomData<I>,
    _trans: PhantomData<D>,
    _out: PhantomData<O>,
}

impl<T, P, I, D, O> _Controller<T, P, I, D, O> where T: InPort<I, Dto = D>, P: OutPort<O> {
    /// The transformer that this controller holds.
    pub closed spec fn transformer(self) -> T {
        self.transformer
    }

    /// The presenter that this controller holds.
    pub closed spec fn presenter(self) -> P {
        self.presenter
    }

    /// A controller made of the two stages that it is given.
    pub fn new(transformer: T, presenter: P) -> (controller: Self)
        ensures
            controller.transformer() == transformer,
            controller.presenter() == presenter,
    {
        Self { transformer, presenter, _in: PhantomData, _trans: PhantomData, _out: PhantomData }
    }

    /// Runs the transform stage on `input` and keeps what it gave for the
    /// handler.
    pub fn transform(self, input: I) -> (staged: Transformed<T, P, I, D, O>)
        ensures
            staged.controller() == self,
            transforms(self.transformer(), input, staged.dto()),
    {
        Transformed {
            trans_input: self.transformer.emit(input),
            controller: self,
            _in: PhantomData,
            _out: PhantomData,
        }
    }

    /// Gives up the controller for its presenter.
    pub fn present(self) -> (presenter: P)
        ensures
            presenter == self.presenter(),
    {
        self.presenter
    }
}

/// A pipeline whose input has been transformed and that waits for its
/// handler.
pub struct Transformed<T, P, I, D, O> {
    controller: _Controller<T, P, I, D, O>,
    trans_input: D,
    _in: PhantomData<I>,
    _out: PhantomData<O>,
}

impl<T, P, I, D, O> Transformed<T, P, I, D, O> where T: InPort<I, Dto = D>, P: OutPort<O> {
    /// The controller that staged this pipeline.
    pub closed spec fn controller(self) -> _Controller<T, P, I, D, O> {
        self.controller
    }

    /// The transfer object that the handler will get.
    pub closed spec fn dto(self) -> D {
        self.trans_input
    }

    /// Ends the ingress half: gives the presenter that will shape the answer
    /// and the transfer object to hand to the handler.
    pub fn into_parts(self) -> (parts: (P, D))
        ensures
            parts.0 == self.controller().presenter(),
            parts.1 == self.dto(),
    {
        (self.controller.present(), self.trans_input)
    }

    /// Calls `f` on the transfer object and shows what it answers. The
    /// pipeline is used up. A handler that has to be waited for gets the
    /// transfer object from [`Transformed::into_parts`] instead.
    pub fn handle<F>(self, f: F) -> (shown: P::ViewModel) where F: FnOnce(D) -> O
        requires
            call_requires(f, (self.dto(),)),
        ensures
            answers(f, self.controller().presenter(), self.dto(), shown),
    {
        let (presenter, dto) = self.into_parts();
        let outcome = f(dto);
        presenter.emit(outcome)
    }
}

/// A controller without a transform stage: it takes any input that converts
/// into the transfer object, and `P` shows the handler's answer `D`.
pub struct Controller<P, D> {
    presenter: P,
    _presenter_input: PhantomData<D>,
}

impl<P: OutPort<D>, D> Controller<P, D> {
    /// The presenter that this controller holds.
    pub closed spec fn presenter(self) -> P {
        self.presenter
    }

    /// A controller made of the presenter that it is given.
    pub fn new(presenter: P) -> (controller: Self)
        ensures
            controller.presenter() == presenter,
    {
        Self { presenter, _presenter_input: PhantomData }
    }

    /// Keeps `input` as it is; it is converted when the handler is called.
    pub fn capture<R: Into<N>, N>(self, input: R) -> (captured: Captured<R, N, D, P>)
        ensures
            captured.controller() == self,
            captured.input() == input,
    {
        Captured { controller: self, input, _need: PhantomData, _conv: PhantomData }
    }
}

/// A pipeline that holds its input unconverted and waits for its handler.
pub struct Captured<R, N, D, P> {
    controller: Controller<P, D>,
    input: R,
    _need: PhantomData<N>,
    _conv: PhantomData<D>,
}

impl<R, N, D, P> Captured<R, N, D, P> where R: Into<N>, P: OutPort<D> {
    /// The controller that captured the input.
    pub closed spec fn controller(self) -> Controller<P, D> {
        self.controller
    }

    /// The input as it was captured.
    pub closed spec fn input(self) -> R {
        self.input
    }

    /// Ends the ingress half: converts the input, and gives the presenter
    /// that will shape the answer and the transfer object to hand to the
    /// handler.
    pub fn into_parts(self) -> (parts: (P, N))
        ensures
            parts.0 == self.controller().presenter(),
            converts(self.input(), parts.1),
    {
        (self.controller.presenter, self.input.into())
    }

    /// Converts the input, calls `f` on the transfer object and shows what it
    /// answers. The pipeline is used up. A handler that has to be waited for
    /// gets the transfer object from [`Captured::into_parts`] instead.
    pub fn handle<F>(self, f: F) -> (shown: P::ViewModel) where F: Fn(N) -> D
        requires
            forall|dto: N| #[trigger] converts(self.input(), dto) ==> call_requires(f, (dto,)),
        ensures
            shows_captured(self.controller().presenter(), f, self.input(), shown),
    {
        let (presenter, dto) = self.into_parts();
        let outcome = f(dto);
        presenter.emit(outcome)
    }
}

} // verus!
